use vstd::prelude::*;
use vstd::string::StringExecFns;

verus! {

/// A coordinate `(chapter, paragraph, offset)` into the logical document.
#[derive(Clone, Copy, Debug, PartialEq, Eq, Structural)]
pub struct Position {
    pub chapter: usize,
    pub paragraph: usize,
    pub offset: usize,
}

/// A reader bookmark: a range of two positions over one book, stamped with an
/// identifier and a creation time.
#[derive(Debug)]
pub struct BookMark {
    pub book_id: String,
    pub mark_id: usize,
    pub start_position: Position,
    pub end_position: Position,
    pub create_time: u64,
}

pub open spec fn zero_position() -> Position {
    Position { chapter: 0, paragraph: 0, offset: 0 }
}

/// A range is legal when every component of `end` is at least the matching
/// component of `start`. The three components are compared independently, not
/// lexicographically, so a range that ends in a later chapter can still be
/// illegal when its end paragraph or offset is smaller.
pub open spec fn legal_range(start: Position, end: Position) -> bool {
    &&& end.chapter >= start.chapter
    &&& end.paragraph >= start.paragraph
    &&& end.offset >= start.offset
}

/// The bookmarks of `marks` whose book identifier equals `book_id`, in
/// stored order.
pub open spec fn marks_for_book(marks: Seq<BookMark>, book_id: Seq<char>) -> Seq<BookMark>
    decreases marks.len(),
{
    if marks.len() == 0 {
        Seq::empty()
    } else if marks.last().book_id@ == book_id {
        marks_for_book(marks.drop_last(), book_id).push(marks.last())
    } else {
        marks_for_book(marks.drop_last(), book_id)
    }
}

impl Clone for BookMark {
    fn clone(&self) -> (r: Self)
        ensures
            r == *self,
    {
        BookMark {
            book_id: self.book_id.clone(),
            mark_id: self.mark_id,
            start_position: self.start_position,
            end_position: self.end_position,
            create_time: self.create_time,
        }
    }
}

impl BookMark {
    /// A fresh bookmark for the given book: both positions at the origin and
    /// the identifier unassigned; `update` stamps the identifier the store
    /// hands out. The creation time is read from the clock.
    pub fn new(book_id: &str) -> (r: BookMark)
        ensures
            r.book_id@ == book_id@,
            r.mark_id == 0,
            r.start_position == zero_position(),
            r.end_position == zero_position(),
    {
        BookMark {
            book_id: book_id.to_owned(),
            mark_id: 0,
            start_position: Position { chapter: 0, paragraph: 0, offset: 0 },
            end_position: Position { chapter: 0, paragraph: 0, offset: 0 },
            create_time: crate::common::time_stamp(),
        }
    }

    pub fn start_pos(self, chapter: usize, paragraph: usize, offset: usize) -> (r: BookMark)
        ensures
            r.start_position == (Position { chapter, paragraph, offset }),
            r.book_id == self.book_id,
            r.mark_id == self.mark_id,
            r.end_position == self.end_position,
            r.create_time == self.create_time,
    {
        BookMark { start_position: Position { chapter, paragraph, offset }, ..self }
    }

    pub fn end_pos(self, chapter: usize, paragraph: usize, offset: usize) -> (r: BookMark)
        ensures
            r.end_position == (Position { chapter, paragraph, offset }),
            r.book_id == self.book_id,
            r.mark_id == self.mark_id,
            r.start_position == self.start_position,
            r.create_time == self.create_time,
    {
        BookMark { end_position: Position { chapter, paragraph, offset }, ..self }
    }

    /// Restamps the bookmark with the identifier the store handed out for it
    /// and with a fresh creation time from the clock.
    pub fn update(self, mark_id: usize) -> (r: BookMark)
        ensures
            r.mark_id == mark_id,
            r.book_id == self.book_id,
            r.start_position == self.start_position,
            r.end_position == self.end_position,
    {
        BookMark { mark_id, create_time: crate::common::time_stamp(), ..self }
    }

    /// Whether the bookmark's range is legal: each component of the end
    /// position is at least the matching component of the start position.
    pub fn is_legle(&self) -> (r: bool)
        ensures
            r == legal_range(self.start_position, self.end_position),
    {
        self.end_position.chapter >= self.start_position.chapter
            && self.end_position.paragraph >= self.start_position.paragraph
            && self.end_position.offset >= self.start_position.offset
    }

    /// The bookmarks of the given book, selected from a list of stored
    /// bookmarks, in stored order.
    pub fn get_mark_list(marks: &Vec<BookMark>, book_id: &str) -> (r: Vec<BookMark>)
        ensures
            r@ == marks_for_book(marks@, book_id@),
    {
        let key: String = String::from_str(book_id);
        let mut out: Vec<BookMark> = Vec::new();
        let mut i: usize = 0;
        while i < marks.len()
            invariant
                i <= marks@.len(),
                key@ == book_id@,
                out@ == marks_for_book(marks@.take(i as int), book_id@),
            decreases marks@.len() - i,
        {
            proof {
                assert(marks@.take(i + 1).drop_last() =~= marks@.take(i as int));
                assert(marks@.take(i + 1).last() == marks@[i as int]);
            }
            if marks[i].book_id == key {
                out.push(marks[i].clone());
            }
            i += 1;
        }
        proof {
            assert(marks@.take(marks@.len() as int) =~= marks@);
        }
        out
    }
}

} // verus!
