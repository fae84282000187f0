//! The document store: records keyed by their sequence id.

use crate::counter::SequenceCounter;
use crate::types::{AccountId, Document, DocumentStatus, DocumentView, Error};
use vstd::prelude::*;

verus! {

/// The error for the first of the four byte fields that is empty, in the
/// order title, description, format, hash.
pub open spec fn missing_field(
    title: Seq<u8>,
    description: Seq<u8>,
    format: Seq<u8>,
    hash: Seq<u8>,
) -> Option<Error> {
    if title.len() == 0 {
        Some(Error::DocumentTitleNotProvided)
    } else if description.len() == 0 {
        Some(Error::DocumentDescriptionNotProvided)
    } else if format.len() == 0 {
        Some(Error::DocumentFormatNotProvided)
    } else if hash.len() == 0 {
        Some(Error::DocumentIPFSHashNotProvided)
    } else {
        None
    }
}

/// The documents of a list as mathematical values.
pub open spec fn views(documents: Seq<Document>) -> Seq<DocumentView> {
    documents.map_values(|d: Document| d@)
}

/// A list that can be the documents of a store: each stands at the place of
/// its id, counted from 1, and none has an empty field.
pub open spec fn valid_documents(documents: Seq<DocumentView>) -> bool {
    forall|i: int|
        0 <= i < documents.len() ==> (#[trigger] documents[i]).id == i + 1
            && documents[i].complete()
}

/// What a [`DocumentStore`] holds: the documents by id, and the id assigned
/// last.
#[verifier::ext_equal]
pub struct DocumentsView {
    pub entries: Map<u64, DocumentView>,
    pub count: nat,
}

impl DocumentsView {
    pub open spec fn empty() -> DocumentsView {
        DocumentsView { entries: Map::empty(), count: 0 }
    }

    /// The store that holds the listed documents, the first under id 1.
    pub open spec fn of_list(documents: Seq<DocumentView>) -> DocumentsView {
        DocumentsView {
            entries: Map::new(
                |id: u64| 1 <= id <= documents.len(),
                |id: u64| documents[id - 1],
            ),
            count: documents.len(),
        }
    }

    /// The ids in use are exactly 1 up to the count, every document is kept
    /// under its own id, and none has an empty field.
    pub open spec fn wf(self) -> bool {
        &&& self.count <= u64::MAX
        &&& forall|id: u64| #[trigger] self.entries.contains_key(id) <==> 1 <= id <= self.count
        &&& forall|id: u64| #[trigger]
            self.entries.contains_key(id) ==> self.entries[id].id == id
                && self.entries[id].complete()
    }

    /// The status of document `id`, if there is such a document.
    pub open spec fn status_of(self, id: u64) -> Option<DocumentStatus> {
        if self.entries.contains_key(id) {
            Some(self.entries[id].status)
        } else {
            None
        }
    }

    /// The outcome of creating a document: its id, or the reason for the
    /// refusal.
    pub open spec fn create_result(
        self,
        title: Seq<u8>,
        description: Seq<u8>,
        format: Seq<u8>,
        hash: Seq<u8>,
    ) -> Result<u64, Error> {
        if let Some(e) = missing_field(title, description, format, hash) {
            Err(e)
        } else if self.count >= u64::MAX {
            Err(Error::Overflow)
        } else {
            Ok((self.count + 1) as u64)
        }
    }

    /// The store after an attempt to create a document.
    pub open spec fn create(
        self,
        creator: AccountId,
        title: Seq<u8>,
        description: Seq<u8>,
        format: Seq<u8>,
        hash: Seq<u8>,
    ) -> DocumentsView {
        match self.create_result(title, description, format, hash) {
            Ok(id) => DocumentsView {
                entries: self.entries.insert(
                    id,
                    DocumentView {
                        id,
                        creator,
                        title,
                        description,
                        format,
                        hash,
                        status: DocumentStatus::Submitted,
                    },
                ),
                count: self.count + 1,
            },
            Err(_) => self,
        }
    }

    /// The store after an attempt to put document `id` into `status`.
    pub open spec fn set_status(self, id: u64, status: DocumentStatus) -> DocumentsView {
        if self.entries.contains_key(id) {
            DocumentsView {
                entries: self.entries.insert(id, self.entries[id].with_status(status)),
                ..self
            }
        } else {
            self
        }
    }
}

/// The documents, in the order of their ids.
#[derive(Clone, Debug, PartialEq, Eq)]
pub struct DocumentStore {
    documents: Vec<Document>,
    counter: SequenceCounter,
}

impl View for DocumentStore {
    type V = DocumentsView;

    closed spec fn view(&self) -> DocumentsView {
        DocumentsView {
            entries: Map::new(
                |id: u64| 1 <= id <= self.documents.len(),
                |id: u64| self.documents[id - 1]@,
            ),
            count: self.counter.value(),
        }
    }
}

impl DocumentStore {
    /// What the fields must satisfy beyond what the view shows.
    pub closed spec fn inv(&self) -> bool {
        &&& self.counter.wf()
        &&& self.counter.limit() == u64::MAX
        &&& self.counter.value() == self.documents.len()
    }

    pub open spec fn wf(&self) -> bool {
        self.inv() && self@.wf()
    }

    /// A store without documents.
    pub fn new() -> (s: DocumentStore)
        ensures
            s.wf(),
            s@ == DocumentsView::empty(),
    {
        DocumentStore { documents: Vec::new(), counter: SequenceCounter::wide() }
    }

    /// The store that holds the listed documents, if each stands at the
    /// place of its id and none has an empty field.
    pub fn restore(documents: Vec<Document>) -> (s: Option<DocumentStore>)
        ensures
            s is Some <==> valid_documents(views(documents@)),
            s matches Some(s) ==> s.wf() && s@ == DocumentsView::of_list(views(documents@)),
    {
        let n = documents.len();
        let mut i: usize = 0;
        while i < n
            invariant
                i <= n == documents.len(),
                forall|j: int|
                    0 <= j < i ==> (#[trigger] views(documents@)[j]).id == j + 1 && views(
                        documents@,
                    )[j].complete(),
            decreases n - i,
        {
            let d = &documents[i];
            assert(views(documents@)[i as int] == d@);
            if d.id != i as u64 + 1 || d.title.is_empty() || d.description.is_empty()
                || d.format.is_empty() || d.hash.is_empty() {
                return None;
            }
            i = i + 1;
        }
        let counter = match SequenceCounter::resume(n as u64, 0xffff_ffff_ffff_ffff) {
            Some(counter) => counter,
            None => {
                return None;
            },
        };
        let s = DocumentStore { documents, counter };
        proof {
            assert forall|j: int| 0 <= j < documents.len() implies documents[j]@ == #[trigger] views(
                documents@,
            )[j] by {}
            assert(s@.entries =~= DocumentsView::of_list(views(documents@)).entries);
        }
        Some(s)
    }

    /// Copies of all documents, in the order of their ids.
    pub fn list(&self) -> (v: Vec<Document>)
        requires
            self.wf(),
        ensures
            valid_documents(views(v@)),
            DocumentsView::of_list(views(v@)) == self@,
    {
        let mut v: Vec<Document> = Vec::new();
        let mut i: usize = 0;
        while i < self.documents.len()
            invariant
                i <= self.documents.len(),
                v@.len() == i,
                forall|j: int| 0 <= j < i ==> (#[trigger] v@[j])@ == self.documents@[j]@,
            decreases self.documents.len() - i,
        {
            v.push(self.documents[i].duplicate());
            i = i + 1;
        }
        proof {
            assert forall|j: int| 0 <= j < v@.len() implies (#[trigger] views(v@)[j])
                == self.documents@[j]@ by {}
            assert forall|j: int| 0 <= j < views(v@).len() implies (#[trigger] views(v@)[j]).id
                == j + 1 && views(v@)[j].complete() by {
                let id = (j + 1) as u64;
                assert(self@.entries.contains_key(id));
            }
        }
        v
    }

    /// The id assigned last, which is the number of documents.
    pub fn total(&self) -> (n: u64)
        ensures
            n == self@.count,
    {
        self.counter.current()
    }

    /// The document kept under `id`.
    pub fn get(&self, id: u64) -> (d: Option<&Document>)
        requires
            self.wf(),
        ensures
            d is Some <==> self@.entries.contains_key(id),
            d matches Some(d) ==> d@ == self@.entries[id],
    {
        if 1 <= id && id <= self.counter.current() {
            Some(&self.documents[(id - 1) as usize])
        } else {
            None
        }
    }

    /// The status of the document kept under `id`.
    pub fn status_of(&self, id: u64) -> (s: Option<DocumentStatus>)
        requires
            self.wf(),
        ensures
            s == self@.status_of(id),
    {
        match self.get(id) {
            Some(d) => Some(d.status),
            None => None,
        }
    }

    /// Stores a new document in status `Submitted` under the next id.
    ///
    /// Fails with the error of the first empty field, in the order title,
    /// description, format, hash; then with `Overflow` if all ids are spent.
    pub fn create(
        &mut self,
        creator: AccountId,
        title: Vec<u8>,
        description: Vec<u8>,
        format: Vec<u8>,
        hash: Vec<u8>,
    ) -> (r: Result<u64, Error>)
        requires
            old(self).wf(),
        ensures
            final(self).wf(),
            r == old(self)@.create_result(title@, description@, format@, hash@),
            final(self)@ == old(self)@.create(creator, title@, description@, format@, hash@),
    {
        if title.is_empty() {
            return Err(Error::DocumentTitleNotProvided);
        }
        if description.is_empty() {
            return Err(Error::DocumentDescriptionNotProvided);
        }
        if format.is_empty() {
            return Err(Error::DocumentFormatNotProvided);
        }
        if hash.is_empty() {
            return Err(Error::DocumentIPFSHashNotProvided);
        }
        let id = match self.counter.next() {
            Ok(id) => id,
            Err(e) => {
                return Err(e);
            },
        };
        let ghost before = self.documents@;
        let document = Document {
            id,
            creator,
            title,
            description,
            format,
            hash,
            status: DocumentStatus::Submitted,
        };
        self.documents.push(document);
        proof {
            let expected = old(self)@.create(creator, title@, description@, format@, hash@);
            assert forall|i: int| 0 <= i < before.len() implies self.documents@[i]
                == before[i] by {}
            assert(self@.entries =~= expected.entries);
        }
        Ok(id)
    }

    /// Puts the document kept under `id` into `status`, whatever its status
    /// was. Fails with `DocumentNotFound` if there is no such document.
    pub fn set_status(&mut self, id: u64, status: DocumentStatus) -> (r: Result<(), Error>)
        requires
            old(self).wf(),
        ensures
            final(self).wf(),
            r == (if old(self)@.entries.contains_key(id) {
                Ok::<(), Error>(())
            } else {
                Err(Error::DocumentNotFound)
            }),
            final(self)@ == old(self)@.set_status(id, status),
    {
        if 1 <= id && id <= self.counter.current() {
            self.put_status(id, status);
            Ok(())
        } else {
            Err(Error::DocumentNotFound)
        }
    }

    /// Puts the document kept under `id`, which exists, into `status`.
    pub(crate) fn put_status(&mut self, id: u64, status: DocumentStatus)
        requires
            old(self).wf(),
            old(self)@.entries.contains_key(id),
        ensures
            final(self).wf(),
            final(self)@ == old(self)@.set_status(id, status),
    {
        let at = (id - 1) as usize;
        self.documents[at].status = status;
        assert(self@.entries =~= old(self)@.set_status(id, status).entries);
    }
}

} // verus!
