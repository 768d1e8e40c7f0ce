//! Quests, their metadata, and the quest-service collaborator interface.

use vstd::prelude::*;
use vstd::string::StringExecFns;

use crate::error::Error;
use crate::ids::{spec_canonical_text, QuestId, UserId};

verus! {

/// One quest as listed: identifier and display name.
pub struct QuestItem {
    pub id: QuestId,
    pub name: String,
}

impl Clone for QuestItem {
    fn clone(&self) -> (r: Self)
        ensures
            r == *self,
    {
        QuestItem { id: self.id, name: self.name.clone() }
    }
}

impl QuestItem {
    /// Packs an identifier and a display name.
    pub fn new(id: QuestId, name: String) -> (r: QuestItem)
        ensures
            r.id == id && r.name@ == name@,
    {
        QuestItem { id, name }
    }
}

/// A full quest: its listing entry and its description text.
pub struct Quest {
    pub item: QuestItem,
    pub text: String,
}

impl Clone for Quest {
    fn clone(&self) -> (r: Self)
        ensures
            r == *self,
    {
        Quest { item: self.item.clone(), text: self.text.clone() }
    }
}

impl Quest {
    /// Packs an identifier, a display name and a description.
    pub fn new(id: QuestId, name: String, text: String) -> (r: Quest)
        ensures
            r.item.id == id && r.item.name@ == name@ && r.text@ == text@,
    {
        Quest { item: QuestItem { id, name }, text }
    }
}

/// The quest-metadata collaborator the core consumes. Implementations other
/// than the in-process one live outside the core (databases, remote
/// services), so nothing is promised of their answers; the verified logic
/// takes whatever they return as an input.
pub trait QuestService {
    /// All quests, as listing entries.
    fn list_quests(&self) -> Result<Vec<QuestItem>, Error>;

    /// The quest with the given identifier, if any.
    fn get_quest(&self, quest_id: &QuestId) -> Result<Option<Quest>, Error>;

    /// Whether a quest with the given identifier exists.
    fn quest_exists(&self, quest_id: &QuestId) -> Result<bool, Error>;

    /// The generated input for the pair, absence included.
    fn get_input(&self, quest_id: &QuestId, user: &UserId) -> Result<Option<String>, Error>;

    /// The expected answer for the pair, absence included.
    fn get_answer(&self, quest_id: &QuestId, user: &UserId) -> Result<Option<String>, Error>;

    /// The answer-verification oracle: `None` when the quest has no answer
    /// for this pair, else whether `answer` is correct.
    fn verify_answer(&self, quest_id: &QuestId, user: &UserId, answer: &str) -> Result<
        Option<bool>,
        Error,
    >;

    /// The quest's author, if the quest exists and has one.
    fn get_quest_author(&self, quest_id: &QuestId) -> Result<Option<UserId>, Error>;
}

/// Whether two strings hold the same characters.
pub fn str_eq(a: &str, b: &str) -> (r: bool)
    ensures
        r == (a@ == b@),
{
    let x = a.to_owned();
    let y = b.to_owned();
    x == y
}

/// A fixed, in-process quest catalogue.
pub struct ConstQuestService {
    quests: Vec<Quest>,
    author: UserId,
}

impl ConstQuestService {
    /// The sequence of quests in the catalogue.
    pub closed spec fn quests_spec(&self) -> Seq<Quest> {
        self.quests@
    }

    /// The author every catalogue quest is attributed to.
    pub closed spec fn author_spec(&self) -> UserId {
        self.author
    }

    /// A catalogue of the given quests, all attributed to `author`.
    pub fn with_quests(quests: Vec<Quest>, author: UserId) -> (r: ConstQuestService)
        ensures
            r.quests_spec() == quests@,
            r.author_spec() == author,
    {
        ConstQuestService { quests, author }
    }

    /// The fixed four-quest catalogue, attributed to `author`.
    pub fn new(author: UserId) -> (r: ConstQuestService)
        ensures
            r.author_spec() == author,
            r.quests_spec().len() == 4,
            forall|i: int| 0 <= i < 4 ==> (#[trigger] r.quests_spec()[i]).item.id@ == i + 1,
            r.quests_spec()[0].item.name@ == "Quest 1"@,
            r.quests_spec()[1].item.name@ == "Quest 2"@,
            r.quests_spec()[2].item.name@ == "Quest 3"@,
            r.quests_spec()[3].item.name@ == "Quest 4"@,
            r.quests_spec()[0].text@ == "For this quest, you have to submit '1'"@,
            r.quests_spec()[1].text@ == "For this quest, you have to submit '2'"@,
            r.quests_spec()[2].text@ == "For this quest, you have to submit '3'"@,
            r.quests_spec()[3].text@ == "For this quest, you have to submit '4'"@,
    {
        let mut quests: Vec<Quest> = Vec::new();
        quests.push(
            Quest::new(
                QuestId::from_bits(1),
                "Quest 1".to_owned(),
                "For this quest, you have to submit '1'".to_owned(),
            ),
        );
        quests.push(
            Quest::new(
                QuestId::from_bits(2),
                "Quest 2".to_owned(),
                "For this quest, you have to submit '2'".to_owned(),
            ),
        );
        quests.push(
            Quest::new(
                QuestId::from_bits(3),
                "Quest 3".to_owned(),
                "For this quest, you have to submit '3'".to_owned(),
            ),
        );
        quests.push(
            Quest::new(
                QuestId::from_bits(4),
                "Quest 4".to_owned(),
                "For this quest, you have to submit '4'".to_owned(),
            ),
        );
        ConstQuestService { quests, author }
    }

    /// The index of the first quest with the given identifier, if any.
    fn find(&self, quest_id: &QuestId) -> (r: Option<usize>)
        ensures
            r matches Some(i) ==> i < self.quests_spec().len() && self.quests_spec()[i as int].item.id
                == *quest_id && (forall|j: int|
                0 <= j < i ==> (#[trigger] self.quests_spec()[j]).item.id != *quest_id),
            r is None ==> forall|i: int|
                0 <= i < self.quests_spec().len() ==> (#[trigger] self.quests_spec()[i]).item.id
                    != *quest_id,
    {
        let n = self.quests.len();
        let mut i: usize = 0;
        while i < n
            invariant
                i <= n,
                n == self.quests@.len(),
                forall|j: int| 0 <= j < i ==> (#[trigger] self.quests@[j]).item.id != *quest_id,
            decreases n - i,
        {
            if self.quests[i].item.id == *quest_id {
                return Some(i);
            }
            i += 1;
        }
        None
    }
}

impl QuestService for ConstQuestService {
    fn list_quests(&self) -> (r: Result<Vec<QuestItem>, Error>)
        ensures
            r matches Ok(items) && items@.len() == self.quests_spec().len() && (forall|i: int|
                0 <= i < items@.len() ==> #[trigger] items@[i] == self.quests_spec()[i].item),
    {
        let n = self.quests.len();
        let mut items: Vec<QuestItem> = Vec::new();
        let mut i: usize = 0;
        while i < n
            invariant
                i <= n,
                n == self.quests@.len(),
                items@.len() == i,
                forall|j: int| 0 <= j < i ==> #[trigger] items@[j] == self.quests@[j].item,
            decreases n - i,
        {
            items.push(self.quests[i].item.clone());
            i += 1;
        }
        Ok(items)
    }

    fn get_quest(&self, quest_id: &QuestId) -> (r: Result<Option<Quest>, Error>)
        ensures
            r matches Ok(o) && (match o {
                Some(q) => q.item.id == *quest_id && (exists|i: int|
                    0 <= i < self.quests_spec().len() && #[trigger] self.quests_spec()[i] == q),
                None => forall|i: int|
                    0 <= i < self.quests_spec().len() ==> (#[trigger] self.quests_spec()[i]).item.id
                        != *quest_id,
            }),
    {
        match self.find(quest_id) {
            Some(i) => Ok(Some(self.quests[i].clone())),
            None => Ok(None),
        }
    }

    fn quest_exists(&self, quest_id: &QuestId) -> (r: Result<bool, Error>)
        ensures
            r matches Ok(b) && (b <==> exists|i: int|
                0 <= i < self.quests_spec().len() && (#[trigger] self.quests_spec()[i]).item.id
                    == *quest_id),
    {
        Ok(self.find(quest_id).is_some())
    }

    fn get_input(&self, quest_id: &QuestId, user: &UserId) -> (r: Result<Option<String>, Error>)
        ensures
            r matches Ok(o) && (match o {
                Some(s) => s@ == "Input for quest '"@ + spec_canonical_text(quest_id@)
                    + "' for user '"@ + spec_canonical_text(user@) + "'"@ && (exists|i: int|
                    0 <= i < self.quests_spec().len() && (#[trigger] self.quests_spec()[i]).item.id
                        == *quest_id),
                None => forall|i: int|
                    0 <= i < self.quests_spec().len() ==> (#[trigger] self.quests_spec()[i]).item.id
                        != *quest_id,
            }),
    {
        if self.find(quest_id).is_none() {
            return Ok(None);
        }
        let mut input = "Input for quest '".to_owned();
        let quest_text = quest_id.to_text();
        input.append(quest_text.as_str());
        input.append("' for user '");
        let user_text = user.to_text();
        input.append(user_text.as_str());
        input.append("'");
        Ok(Some(input))
    }

    fn get_answer(&self, quest_id: &QuestId, _user: &UserId) -> (r: Result<Option<String>, Error>)
        ensures
            r matches Ok(o) && (match o {
                Some(s) => s@ == spec_canonical_text(quest_id@) && (exists|i: int|
                    0 <= i < self.quests_spec().len() && (#[trigger] self.quests_spec()[i]).item.id
                        == *quest_id),
                None => forall|i: int|
                    0 <= i < self.quests_spec().len() ==> (#[trigger] self.quests_spec()[i]).item.id
                        != *quest_id,
            }),
    {
        match self.find(quest_id) {
            Some(_) => Ok(Some(quest_id.to_text())),
            None => Ok(None),
        }
    }

    fn verify_answer(&self, quest_id: &QuestId, user: &UserId, answer: &str) -> (r: Result<
        Option<bool>,
        Error,
    >)
        ensures
            r matches Ok(o) && (match o {
                Some(b) => (b <==> answer@ == spec_canonical_text(quest_id@)) && (exists|i: int|
                    0 <= i < self.quests_spec().len() && (#[trigger] self.quests_spec()[i]).item.id
                        == *quest_id),
                None => forall|i: int|
                    0 <= i < self.quests_spec().len() ==> (#[trigger] self.quests_spec()[i]).item.id
                        != *quest_id,
            }),
    {
        match self.get_answer(quest_id, user) {
            Ok(Some(correct)) => Ok(Some(str_eq(answer, correct.as_str()))),
            Ok(None) => Ok(None),
            Err(e) => Err(e),
        }
    }

    fn get_quest_author(&self, quest_id: &QuestId) -> (r: Result<Option<UserId>, Error>)
        ensures
            r matches Ok(o) && (match o {
                Some(a) => a == self.author_spec() && (exists|i: int|
                    0 <= i < self.quests_spec().len() && (#[trigger] self.quests_spec()[i]).item.id
                        == *quest_id),
                None => forall|i: int|
                    0 <= i < self.quests_spec().len() ==> (#[trigger] self.quests_spec()[i]).item.id
                        != *quest_id,
            }),
    {
        match self.find(quest_id) {
            Some(_) => Ok(Some(self.author)),
            None => Ok(None),
        }
    }
}

} // verus!
