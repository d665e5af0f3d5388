//! The table of embedded documents: resource names and the text that each
//! one holds. The table is filled once and read by every render.

use crate::text::str_eq;
use vstd::prelude::*;
use vstd::utf8::{decode_utf8, valid_utf8};

verus! {

/// One embedded resource.
struct Document {
    name: String,
    text: String,
}

/// An immutable-after-setup mapping from resource names to document text.
pub struct DocumentTable {
    documents: Vec<Document>,
}

/// The mapping that a list of documents stands for. Where a name occurs more
/// than once, the document stored last is the one found.
spec fn contents(documents: Seq<Document>) -> Map<Seq<char>, Seq<char>>
    decreases documents.len(),
{
    if documents.len() == 0 {
        Map::empty()
    } else {
        contents(documents.drop_last()).insert(documents.last().name@, documents.last().text@)
    }
}

/// A document that no later document shadows is the one that its name maps
/// to.
proof fn lemma_found(documents: Seq<Document>, i: int)
    requires
        0 <= i < documents.len(),
        forall|j: int| i < j < documents.len() ==> documents[j].name@ != documents[i].name@,
    ensures
        contents(documents).contains_key(documents[i].name@),
        contents(documents)[documents[i].name@] == documents[i].text@,
    decreases documents.len(),
{
    if i < documents.len() - 1 {
        lemma_found(documents.drop_last(), i);
    }
}

/// A name that no document bears is not in the mapping.
proof fn lemma_absent(documents: Seq<Document>, name: Seq<char>)
    requires
        forall|j: int| 0 <= j < documents.len() ==> documents[j].name@ != name,
    ensures
        !contents(documents).contains_key(name),
    decreases documents.len(),
{
    if documents.len() > 0 {
        lemma_absent(documents.drop_last(), name);
    }
}

/// Calls `String::from_utf8`, which accepts exactly the byte vectors that
/// are valid UTF-8 and then yields the text that they encode.
#[verifier::external_body]
fn text_from_utf8(data: Vec<u8>) -> (text: Option<String>)
    ensures
        text is Some <==> valid_utf8(data@),
        text matches Some(t) ==> t@ == decode_utf8(data@),
{
    String::from_utf8(data).ok()
}

impl View for DocumentTable {
    type V = Map<Seq<char>, Seq<char>>;

    closed spec fn view(&self) -> Map<Seq<char>, Seq<char>> {
        contents(self.documents@)
    }
}

impl DocumentTable {
    /// A table without documents.
    pub fn new() -> (table: DocumentTable)
        ensures
            table@ == Map::<Seq<char>, Seq<char>>::empty(),
    {
        DocumentTable { documents: Vec::new() }
    }

    /// Stores the bytes of a resource under its name, in place of any
    /// document stored under that name before. Bytes that are not valid
    /// UTF-8 are no document: they are refused and the table stays as it
    /// was.
    pub fn insert(&mut self, name: &str, data: Vec<u8>) -> (stored: bool)
        ensures
            stored == valid_utf8(data@),
            stored ==> final(self)@ == old(self)@.insert(name@, decode_utf8(data@)),
            !stored ==> final(self)@ == old(self)@,
    {
        match text_from_utf8(data) {
            Some(text) => {
                let ghost before = self.documents@;
                self.documents.push(Document { name: name.to_owned(), text });
                assert(self.documents@.drop_last() =~= before);
                true
            },
            None => false,
        }
    }

    /// The text stored under a resource name, if there is any.
    pub fn get(&self, name: &str) -> (text: Option<&str>)
        ensures
            text is Some <==> self@.contains_key(name@),
            text matches Some(t) ==> t@ == self@[name@],
    {
        let mut i: usize = self.documents.len();
        while i > 0
            invariant
                i <= self.documents@.len(),
                forall|j: int| i <= j < self.documents@.len() ==> self.documents@[j].name@ != name@,
            decreases i,
        {
            i -= 1;
            if str_eq(self.documents[i].name.as_str(), name) {
                proof {
                    lemma_found(self.documents@, i as int);
                }
                return Some(self.documents[i].text.as_str());
            }
        }
        proof {
            lemma_absent(self.documents@, name@);
        }
        None
    }
}

} // verus!
