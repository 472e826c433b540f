use vstd::prelude::*;

use crate::bookinfo::BookInfo;
use crate::epub::{
    can_advance, chapter_resource, jump_rel, next_rel, openable, prev_rel, Epub, EpubError,
    RawResource, TocEntry,
};

verus! {

/// The single slot that holds the reader's open document. At most one
/// document is open at a time; every command works on this slot, and the
/// embedding layer serializes access to it, so each command sees the state
/// some single earlier command produced.
#[derive(Debug)]
pub struct ReaderState {
    pub current: Option<Epub>,
}

impl ReaderState {
    /// Any document held in the slot is well-formed.
    pub open spec fn wf(self) -> bool {
        self.current matches Some(e) ==> e.wf()
    }

    /// An empty slot: no document open yet.
    pub fn new() -> (r: ReaderState)
        ensures
            r.current is None,
            r.wf(),
    {
        ReaderState { current: None }
    }

    /// Builds a document from the raw parts the container parser handed over
    /// and installs it, dropping whatever was open before. On failure the
    /// slot is untouched: no partially built document is ever installed.
    pub fn open_document(
        &mut self,
        info: BookInfo,
        spine: Vec<String>,
        manifest: Vec<RawResource>,
        toc: Vec<TocEntry>,
    ) -> (r: Result<(), EpubError>)
        requires
            old(self).wf(),
        ensures
            final(self).wf(),
            (r is Ok) == openable(spine@, manifest@, toc@),
            r is Ok ==> final(self).current is Some && final(self).current.unwrap().wf() && final(self).current.unwrap().built_from(info, spine@, manifest@, toc@),
            r is Err ==> *final(self) == *old(self) && r == Err::<(), EpubError>(
                EpubError::MalformedContainer,
            ),
    {
        match Epub::new(info, spine, manifest, toc) {
            Ok(doc) => {
                self.current = Some(doc);
                Ok(())
            },
            Err(e) => Err(e),
        }
    }

    /// The spine index of the resource bound to the current chapter:
    /// `NoOpenDocument` when the slot is empty, `ChapterOutOfRange` when the
    /// catalog is empty and no chapter exists.
    pub fn current_resource(&self) -> (r: Result<usize, EpubError>)
        requires
            self.wf(),
        ensures
            self.current is None ==> r == Err::<usize, EpubError>(EpubError::NoOpenDocument),
            self.current is Some && self.current.unwrap().catalog@.len() == 0 ==> r == Err::<
                usize,
                EpubError,
            >(EpubError::ChapterOutOfRange),
            self.current is Some && self.current.unwrap().catalog@.len() > 0 ==> r == Ok::<
                usize,
                EpubError,
            >(chapter_resource(self.current.unwrap())),
    {
        match self.current.as_ref() {
            None => Err(EpubError::NoOpenDocument),
            Some(doc) => match doc.current_resource_index() {
                None => Err(EpubError::ChapterOutOfRange),
                Some(k) => Ok(k),
            },
        }
    }

    /// Advances the open document one chapter and returns the spine index of
    /// the chapter now current. At the last chapter the cursor stays put and
    /// the command reports `NoMorePages`; with no open document it reports
    /// `NoOpenDocument`. Either failure leaves the state exactly as it was.
    pub fn advance_page(&mut self) -> (r: Result<usize, EpubError>)
        requires
            old(self).wf(),
        ensures
            final(self).wf(),
            old(self).current is None ==> *final(self) == *old(self) && r == Err::<
                usize,
                EpubError,
            >(EpubError::NoOpenDocument),
            old(self).current is Some && can_advance(old(self).current.unwrap()) ==> final(self).current is Some && next_rel(
                old(self).current.unwrap(),
                final(self).current.unwrap(),
                true,
            ) && r == Ok::<usize, EpubError>(chapter_resource(final(self).current.unwrap())),
            old(self).current is Some && !can_advance(old(self).current.unwrap()) ==> *final(self)
                == *old(self) && r == Err::<usize, EpubError>(EpubError::NoMorePages),
    {
        match self.current.take() {
            None => Err(EpubError::NoOpenDocument),
            Some(mut doc) => {
                let moved = doc.go_next();
                let result = if moved {
                    Ok(doc.resources_mapping[doc.current_page])
                } else {
                    Err(EpubError::NoMorePages)
                };
                self.current = Some(doc);
                result
            },
        }
    }

    /// Retreats the open document one chapter and returns the spine index of
    /// the chapter now current. At chapter 0 the cursor stays put and the
    /// command reports `NoMorePages`; with no open document it reports
    /// `NoOpenDocument`. Either failure leaves the state exactly as it was.
    pub fn retreat_page(&mut self) -> (r: Result<usize, EpubError>)
        requires
            old(self).wf(),
        ensures
            final(self).wf(),
            old(self).current is None ==> *final(self) == *old(self) && r == Err::<
                usize,
                EpubError,
            >(EpubError::NoOpenDocument),
            old(self).current is Some && old(self).current.unwrap().current_page > 0 ==> final(self).current is Some && prev_rel(
                old(self).current.unwrap(),
                final(self).current.unwrap(),
                true,
            ) && r == Ok::<usize, EpubError>(chapter_resource(final(self).current.unwrap())),
            old(self).current is Some && old(self).current.unwrap().current_page == 0 ==> *final(self) == *old(self) && r == Err::<usize, EpubError>(EpubError::NoMorePages),
    {
        match self.current.take() {
            None => Err(EpubError::NoOpenDocument),
            Some(mut doc) => {
                let moved = doc.go_prev();
                let result = if moved {
                    Ok(doc.resources_mapping[doc.current_page])
                } else {
                    Err(EpubError::NoMorePages)
                };
                self.current = Some(doc);
                result
            },
        }
    }

    /// Jumps the open document to the given chapter and returns the spine
    /// index of its resource. A target at or beyond the catalog's length
    /// reports `ChapterOutOfRange`; with no open document it reports
    /// `NoOpenDocument`. Either failure leaves the state exactly as it was.
    pub fn jump_to_chapter(&mut self, chapter: usize) -> (r: Result<usize, EpubError>)
        requires
            old(self).wf(),
        ensures
            final(self).wf(),
            old(self).current is None ==> *final(self) == *old(self) && r == Err::<
                usize,
                EpubError,
            >(EpubError::NoOpenDocument),
            old(self).current is Some && chapter < old(self).current.unwrap().catalog@.len()
                ==> final(self).current is Some && jump_rel(
                old(self).current.unwrap(),
                chapter,
                final(self).current.unwrap(),
                true,
            ) && r == Ok::<usize, EpubError>(chapter_resource(final(self).current.unwrap())),
            old(self).current is Some && chapter >= old(self).current.unwrap().catalog@.len()
                ==> *final(self) == *old(self) && r == Err::<usize, EpubError>(
                EpubError::ChapterOutOfRange,
            ),
    {
        match self.current.take() {
            None => Err(EpubError::NoOpenDocument),
            Some(mut doc) => {
                let moved = doc.set_current_page(chapter);
                let result = if moved {
                    Ok(doc.resources_mapping[doc.current_page])
                } else {
                    Err(EpubError::ChapterOutOfRange)
                };
                self.current = Some(doc);
                result
            },
        }
    }

    /// The chapter labels of the open document in catalog order, or
    /// `NoOpenDocument` when the slot is empty.
    pub fn get_catalog(&self) -> (r: Result<Vec<String>, EpubError>)
        ensures
            self.current is None ==> r == Err::<Vec<String>, EpubError>(EpubError::NoOpenDocument),
            self.current is Some ==> r is Ok && r.unwrap()@.len()
                == self.current.unwrap().catalog@.len() && (forall|i: int|
                0 <= i < r.unwrap()@.len() ==> r.unwrap()@[i]@
                    == self.current.unwrap().catalog@[i].label@),
    {
        match self.current.as_ref() {
            None => Err(EpubError::NoOpenDocument),
            Some(doc) => Ok(doc.get_catalog()),
        }
    }
}

} // verus!
