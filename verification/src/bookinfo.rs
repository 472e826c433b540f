use vstd::prelude::*;
use vstd::string::StringExecFns;

verus! {

/// The typed record a stored book is described by: identity, where the copied
/// file and its cover live, and the document metadata fields.
#[derive(Debug)]
pub struct BookInfo {
    /// Identifier of the book: the digest of the imported file.
    pub id: String,
    /// Where the imported copy of the book is stored.
    pub file_path: String,
    /// Where the extracted cover image is stored.
    pub cover_path: String,
    pub title: String,
    pub creator: String,
    pub date: String,
    pub publisher: String,
    pub language: String,
    pub subject: String,
    pub description: String,
    /// When the book was last opened, in milliseconds since the Unix epoch.
    pub last_open: u64,
}

/// Index of the first record of `list` whose identifier equals `id`, or -1
/// when there is none.
pub open spec fn find_info(list: Seq<BookInfo>, id: Seq<char>) -> int
    decreases list.len(),
{
    if list.len() == 0 {
        -1
    } else {
        let prefix = find_info(list.drop_last(), id);
        if prefix >= 0 {
            prefix
        } else if list.last().id@ == id {
            list.len() - 1
        } else {
            -1
        }
    }
}

impl Clone for BookInfo {
    fn clone(&self) -> (r: Self)
        ensures
            r == *self,
    {
        BookInfo {
            id: self.id.clone(),
            file_path: self.file_path.clone(),
            cover_path: self.cover_path.clone(),
            title: self.title.clone(),
            creator: self.creator.clone(),
            date: self.date.clone(),
            publisher: self.publisher.clone(),
            language: self.language.clone(),
            subject: self.subject.clone(),
            description: self.description.clone(),
            last_open: self.last_open,
        }
    }
}

impl PartialEq for BookInfo {
    /// Two records describe the same book when identifier and title agree;
    /// the other fields do not take part in the comparison.
    fn eq(&self, other: &Self) -> (r: bool) {
        self.id == other.id && self.title == other.title
    }
}

impl vstd::std_specs::cmp::PartialEqSpecImpl for BookInfo {
    open spec fn obeys_eq_spec() -> bool {
        true
    }

    open spec fn eq_spec(&self, other: &Self) -> bool {
        self.id@ == other.id@ && self.title@ == other.title@
    }
}

impl BookInfo {
    /// The first stored record with the given identifier, or None when no
    /// record of `list` carries it.
    pub fn get_specific_info(list: &Vec<BookInfo>, id: &str) -> (r: Option<BookInfo>)
        ensures
            (r is Some) == (find_info(list@, id@) >= 0),
            r matches Some(info) ==> info == list@[find_info(list@, id@)],
    {
        let key: String = String::from_str(id);
        let mut found: Option<usize> = None;
        let mut i: usize = 0;
        while i < list.len()
            invariant
                i <= list@.len(),
                key@ == id@,
                match found {
                    None => find_info(list@.take(i as int), id@) == -1,
                    Some(f) => f < i && find_info(list@.take(i as int), id@) == f,
                },
            decreases list@.len() - i,
        {
            proof {
                assert(list@.take(i + 1).drop_last() =~= list@.take(i as int));
                assert(list@.take(i + 1).last() == list@[i as int]);
            }
            if found.is_none() && list[i].id == key {
                found = Some(i);
            }
            i += 1;
        }
        proof {
            assert(list@.take(list@.len() as int) =~= list@);
        }
        match found {
            None => None,
            Some(f) => Some(list[f].clone()),
        }
    }
}

/// Index of the first metadata entry of `data` whose key equals `key`, or -1
/// when there is none.
pub open spec fn find_meta(data: Seq<(String, Vec<String>)>, key: Seq<char>) -> int
    decreases data.len(),
{
    if data.len() == 0 {
        -1
    } else {
        let prefix = find_meta(data.drop_last(), key);
        if prefix >= 0 {
            prefix
        } else if data.last().0@ == key {
            data.len() - 1
        } else {
            -1
        }
    }
}

/// The values joined with a single comma between neighbours: empty for no
/// values, the sole value alone, otherwise value,value,...
pub open spec fn joined_values(vals: Seq<String>) -> Seq<char>
    decreases vals.len(),
{
    if vals.len() == 0 {
        Seq::empty()
    } else if vals.len() == 1 {
        vals[0]@
    } else {
        joined_values(vals.drop_last()) + ","@ + vals.last()@
    }
}

fn join_with_commas(vals: &Vec<String>) -> (r: String)
    ensures
        r@ == joined_values(vals@),
{
    let mut out = String::new();
    let mut i: usize = 0;
    while i < vals.len()
        invariant
            i <= vals@.len(),
            out@ == joined_values(vals@.take(i as int)),
        decreases vals@.len() - i,
    {
        proof {
            assert(vals@.take(i + 1).drop_last() =~= vals@.take(i as int));
            assert(vals@.take(i + 1).last() == vals@[i as int]);
        }
        if i > 0 {
            out.append(",");
        }
        out.append(vals[i].as_str());
        i += 1;
    }
    proof {
        assert(vals@.take(vals@.len() as int) =~= vals@);
    }
    out
}

/// The value stored in the document metadata under `key`: the entry's values
/// joined with commas, or the empty string when the key is absent.
pub fn get_value(data: &Vec<(String, Vec<String>)>, key: &str) -> (r: String)
    ensures
        find_meta(data@, key@) < 0 ==> r@ == Seq::<char>::empty(),
        find_meta(data@, key@) >= 0 ==> r@ == joined_values(data@[find_meta(data@, key@)].1@),
{
    let key_string: String = String::from_str(key);
    let mut found: Option<usize> = None;
    let mut i: usize = 0;
    while i < data.len()
        invariant
            i <= data@.len(),
            key_string@ == key@,
            match found {
                None => find_meta(data@.take(i as int), key@) == -1,
                Some(f) => f < i && find_meta(data@.take(i as int), key@) == f,
            },
        decreases data@.len() - i,
    {
        proof {
            assert(data@.take(i + 1).drop_last() =~= data@.take(i as int));
            assert(data@.take(i + 1).last() == data@[i as int]);
        }
        if found.is_none() && data[i].0 == key_string {
            found = Some(i);
        }
        i += 1;
    }
    proof {
        assert(data@.take(data@.len() as int) =~= data@);
    }
    match found {
        None => String::new(),
        Some(f) => join_with_commas(&data[f].1),
    }
}

} // verus!
