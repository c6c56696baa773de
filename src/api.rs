//! The movie endpoints' own rules: title sanitising, search paging, health,
//! error statuses, configuration defaults and the shaping of movie records.
use vstd::prelude::*;

use vstd::utf8::encode_utf8;

use crate::text::{chars_of, string_of, trim, trim_bounds};

verus! {

/// What a failed request reports.
#[derive(Debug, Clone, Copy, PartialEq, Eq, Structural)]
pub enum ErrorKind {
    BadRequest,
    NotFound,
    Unavailable,
    Internal,
}

impl ErrorKind {
    pub open spec fn spec_status(&self) -> u16 {
        match self {
            ErrorKind::BadRequest => 400,
            ErrorKind::NotFound => 404,
            ErrorKind::Unavailable => 503,
            ErrorKind::Internal => 500,
        }
    }

    /// The HTTP status of the error.
    pub fn status_code(&self) -> (r: u16)
        ensures
            r == self.spec_status(),
    {
        match self {
            ErrorKind::BadRequest => 400,
            ErrorKind::NotFound => 404,
            ErrorKind::Unavailable => 503,
            ErrorKind::Internal => 500,
        }
    }
}

pub const MAX_TITLE_BYTES: usize = 200;

/// A title is usable when, trimmed, it is non-empty and at most 200 bytes.
pub open spec fn title_ok(t: Seq<char>) -> bool {
    trim(t).len() > 0 && encode_utf8(trim(t)).len() <= MAX_TITLE_BYTES
}

/// The trimmed title, or `BadRequest` when it is empty or too long.
pub fn sanitize_title(title: String) -> (r: Result<String, ErrorKind>)
    ensures
        r is Ok <==> title_ok(title@),
        r matches Ok(t) ==> t@ == trim(title@),
        r matches Err(e) ==> e == ErrorKind::BadRequest,
{
    let cs = chars_of(title.as_str());
    let (lo, hi) = trim_bounds(&cs);
    let t = string_of(&cs, lo, hi, false);
    let bytes = t.as_str().as_bytes();
    if lo == hi || bytes.len() > MAX_TITLE_BYTES {
        Err(ErrorKind::BadRequest)
    } else {
        Ok(t)
    }
}

/// The health probe returns 1 when the store answers properly.
pub fn health_status(ok: i64) -> (r: Result<(), ErrorKind>)
    ensures
        r is Ok <==> ok == 1,
        r matches Err(e) ==> e == ErrorKind::Unavailable,
{
    if ok == 1 {
        Ok(())
    } else {
        Err(ErrorKind::Unavailable)
    }
}

/// A title search with paging.
pub struct Search {
    pub q: String,
    pub offset: Option<i64>,
    pub limit: Option<i64>,
}

pub const SEARCH_DEFAULT_LIMIT: i64 = 25;

pub const SEARCH_MAX_LIMIT: i64 = 200;

pub open spec fn search_limit(l: Option<i64>) -> i64 {
    match l {
        Some(x) => if x < 1 {
            1
        } else if x > SEARCH_MAX_LIMIT {
            SEARCH_MAX_LIMIT
        } else {
            x
        },
        None => SEARCH_DEFAULT_LIMIT,
    }
}

pub open spec fn search_offset(o: Option<i64>) -> i64 {
    match o {
        Some(x) => if x < 0 {
            0
        } else {
            x
        },
        None => 0,
    }
}

impl Search {
    /// The `(offset, limit)` to page by: the limit defaults to 25 and is
    /// clamped to `1..=200`, the offset defaults to 0 and is never negative.
    pub fn window(&self) -> (r: (i64, i64))
        ensures
            r.0 == search_offset(self.offset),
            r.1 == search_limit(self.limit),
    {
        let limit = match self.limit {
            Some(x) => if x < 1 {
                1
            } else if x > SEARCH_MAX_LIMIT {
                SEARCH_MAX_LIMIT
            } else {
                x
            },
            None => SEARCH_DEFAULT_LIMIT,
        };
        let offset = match self.offset {
            Some(x) => if x < 0 {
                0
            } else {
                x
            },
            None => 0,
        };
        (offset, limit)
    }
}

/// One member of a movie's cast.
pub struct Person {
    pub job: String,
    pub role: Option<Vec<String>>,
    pub name: String,
}

/// A movie with its cast, as the detail endpoint returns it.
pub struct Movie {
    pub released: Option<u32>,
    pub title: Option<String>,
    pub tagline: Option<String>,
    pub votes: Option<usize>,
    pub cast: Option<Vec<Person>>,
}

pub struct VoteResult {
    pub votes: u64,
}

/// The strings among `vs`, in order.
pub open spec fn present(vs: Seq<Option<String>>) -> Seq<String>
    decreases vs.len(),
{
    if vs.len() == 0 {
        Seq::empty()
    } else {
        let p = present(vs.drop_last());
        match vs.last() {
            Some(s) => p.push(s),
            None => p,
        }
    }
}

pub open spec fn or_empty(s: Option<String>) -> Seq<char> {
    match s {
        Some(x) => x@,
        None => Seq::empty(),
    }
}

fn string_or_empty(s: Option<String>) -> (r: String)
    ensures
        r@ == or_empty(s),
{
    match s {
        Some(x) => x,
        None => String::new(),
    }
}

fn keep_present(vs: Vec<Option<String>>) -> (r: Vec<String>)
    ensures
        r@ == present(vs@),
{
    let ghost all = vs@;
    assert(all.len() == vs.len());
    let mut out: Vec<String> = Vec::new();
    let mut rest = vs;
    let mut i: usize = 0;
    assert(all.subrange(0, 0) =~= Seq::<Option<String>>::empty());
    while rest.len() > 0
        invariant
            i + rest@.len() == all.len() <= usize::MAX,
            rest@ == all.subrange(i as int, all.len() as int),
            out@ == present(all.subrange(0, i as int)),
        decreases rest.len(),
    {
        let v = rest.remove(0);
        assert(all.subrange(0, i + 1).drop_last() =~= all.subrange(0, i as int));
        assert(all.subrange(i + 1, all.len() as int) =~= rest@);
        match v {
            Some(s) => out.push(s),
            None => {},
        }
        i = i + 1;
    }
    assert(all.subrange(0, all.len() as int) =~= all);
    out
}

impl Person {
    /// A cast entry: a missing name or job reads as empty, and of the roles
    /// only those that are strings are kept.
    pub fn from_entry(name: Option<String>, job: Option<String>, role: Option<Vec<Option<String>>>) -> (r: Person)
        ensures
            r.name@ == or_empty(name),
            r.job@ == or_empty(job),
            r.role is Some <==> role is Some,
            r.role matches Some(rs) ==> rs@ == present(role->Some_0@),
    {
        let role = match role {
            Some(vs) => Some(keep_present(vs)),
            None => None,
        };
        Person { job: string_or_empty(job), role, name: string_or_empty(name) }
    }
}

impl Movie {
    /// A movie from its record; an empty cast is reported as none. Numbers
    /// are narrowed as the record layout stores them.
    pub fn from_record(
        released: Option<i64>,
        title: Option<String>,
        tagline: Option<String>,
        votes: Option<i64>,
        cast: Vec<Person>,
    ) -> (r: Movie)
        ensures
            r.released == match released {
                Some(v) => Some(v as u32),
                None => None::<u32>,
            },
            r.title == title,
            r.tagline == tagline,
            r.votes == match votes {
                Some(v) => Some(v as usize),
                None => None::<usize>,
            },
            r.cast is None <==> cast@.len() == 0,
            r.cast matches Some(c) ==> c@ == cast@,
    {
        let released = match released {
            Some(v) => Some(v as u32),
            None => None,
        };
        let votes = match votes {
            Some(v) => Some(v as usize),
            None => None,
        };
        let cast = if cast.len() == 0 {
            None
        } else {
            Some(cast)
        };
        Movie { released, title, tagline, votes, cast }
    }
}

impl VoteResult {
    /// The vote total as the store counted it.
    pub fn from_count(votes: i64) -> (r: VoteResult)
        ensures
            r.votes == votes as u64,
    {
        VoteResult { votes: votes as u64 }
    }
}

} // verus!
