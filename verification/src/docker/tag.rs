//! How image tags are formed: the time of the build, the commit that was
//! built, and whether the working tree held more than the commit.

use crate::text::{fixed_width, trimmed};
use vstd::prelude::*;
use vstd::utf8::{decode_utf8, valid_utf8};

verus! {

/// Why no tag could be formed.
#[derive(Debug, Clone)]
pub enum Error {
    /// Git could not be run; the text says why.
    FailedExecute(String),
    /// What Git printed as the commit is not text; the text says why.
    ParseGitShortSha(String),
}

/// An `Error` in the terms of contracts.
pub enum ErrorView {
    FailedExecute(Seq<char>),
    ParseGitShortSha(Seq<char>),
}

impl View for Error {
    type V = ErrorView;

    open spec fn view(&self) -> ErrorView {
        match self {
            Error::FailedExecute(err) => ErrorView::FailedExecute(err@),
            Error::ParseGitShortSha(err) => ErrorView::ParseGitShortSha(err@),
        }
    }
}

/// A point in time, by the calendar and the clock.
#[derive(Debug, Clone, Copy, PartialEq, Eq, Structural)]
pub struct Timestamp {
    pub year: u16,
    pub month: u8,
    pub day: u8,
    pub hour: u8,
    pub minute: u8,
    pub second: u8,
}

impl Timestamp {
    /// Every field lies in the range that the calendar and the clock give it.
    pub open spec fn well_formed(&self) -> bool {
        &&& self.year <= 9999
        &&& 1 <= self.month <= 12
        &&& 1 <= self.day <= 31
        &&& self.hour <= 23
        &&& self.minute <= 59
        &&& self.second <= 59
    }

    /// Whether every field lies in its range.
    pub fn is_well_formed(&self) -> (r: bool)
        ensures
            r == self.well_formed(),
    {
        self.year <= 9999 && 1 <= self.month && self.month <= 12 && 1 <= self.day && self.day
            <= 31 && self.hour <= 23 && self.minute <= 59 && self.second <= 59
    }

    /// The time as `YYYYMMDD.HHMMSS`.
    pub open spec fn stamp(&self) -> Seq<char> {
        fixed_width(self.year as nat, 4) + fixed_width(self.month as nat, 2) + fixed_width(
            self.day as nat,
            2,
        ) + seq!['.'] + fixed_width(self.hour as nat, 2) + fixed_width(self.minute as nat, 2)
            + fixed_width(self.second as nat, 2)
    }

    /// Writes the time as `YYYYMMDD.HHMMSS`.
    pub fn to_stamp(&self) -> (r: String)
        requires
            self.well_formed(),
        ensures
            r@ == self.stamp(),
    {
        proof {
            reveal_strlit(".");
            assert("."@ =~= seq!['.']);
        }
        let mut out = crate::text::to_fixed_width(self.year as u64, 4);
        out.append(crate::text::to_fixed_width(self.month as u64, 2).as_str());
        out.append(crate::text::to_fixed_width(self.day as u64, 2).as_str());
        out.append(".");
        out.append(crate::text::to_fixed_width(self.hour as u64, 2).as_str());
        out.append(crate::text::to_fixed_width(self.minute as u64, 2).as_str());
        out.append(crate::text::to_fixed_width(self.second as u64, 2).as_str());
        out
    }
}

/// A tag: the time, a dot, the commit, and `-dirty` where the working tree
/// is dirty.
pub open spec fn tag_text(stamp: Seq<char>, commit: Seq<char>, dirty: bool) -> Seq<char> {
    stamp + seq!['.'] + commit + if dirty {
        "-dirty"@
    } else {
        Seq::empty()
    }
}

/// Forms a tag from its parts.
pub fn compose(stamp: &str, commit: &str, dirty: bool) -> (r: String)
    ensures
        r@ == tag_text(stamp@, commit@, dirty),
{
    proof {
        reveal_strlit(".");
        assert("."@ =~= seq!['.']);
    }
    let mut out = stamp.to_owned();
    out.append(".");
    out.append(commit);
    if dirty {
        out.append("-dirty");
    }
    assert(out@ =~= tag_text(stamp@, commit@, dirty));
    out
}

/// The tag of a build at time `now`. `untracked` is what Git printed when
/// asked for the files that it does not track, and `head` what it printed
/// when asked for the short name of the commit; each is the reason instead
/// where Git could not be run. The tree is dirty where Git printed any
/// untracked file.
pub open spec fn generated(
    now: Timestamp,
    untracked: Result<Vec<u8>, String>,
    head: Result<Vec<u8>, String>,
) -> Result<Seq<char>, Option<Seq<char>>> {
    match untracked {
        Err(err) => Err(Some(err@)),
        Ok(files) => match head {
            Err(err) => Err(Some(err@)),
            Ok(commit) => if valid_utf8(commit@) {
                Ok(tag_text(now.stamp(), trimmed(decode_utf8(commit@)), files@.len() > 0))
            } else {
                Err(None)
            },
        },
    }
}

/// Generates the tag of a build: the time of the build and the short name
/// of the commit, with `-dirty` behind it where the working tree holds
/// files that Git does not track. Fails with `FailedExecute` where Git could
/// not be run, and with `ParseGitShortSha` where the commit is not text.
pub fn generate(
    now: &Timestamp,
    untracked: Result<Vec<u8>, String>,
    head: Result<Vec<u8>, String>,
) -> (r: Result<String, Error>)
    requires
        now.well_formed(),
    ensures
        match r {
            Ok(tag) => generated(*now, untracked, head) == Ok::<Seq<char>, Option<Seq<char>>>(
                tag@,
            ),
            Err(Error::FailedExecute(err)) => generated(*now, untracked, head) == Err::<
                Seq<char>,
                Option<Seq<char>>,
            >(Some(err@)),
            Err(Error::ParseGitShortSha(_)) => generated(*now, untracked, head) == Err::<
                Seq<char>,
                Option<Seq<char>>,
            >(None),
        },
{
    let stamp = now.to_stamp();
    let dirty = match untracked {
        Ok(files) => files.len() > 0,
        Err(err) => return Err(Error::FailedExecute(err)),
    };
    let commit = match head {
        Ok(commit) => commit,
        Err(err) => return Err(Error::FailedExecute(err)),
    };
    let short_sha = match crate::text::decode(commit) {
        Ok(text) => crate::text::trim(text.as_str()),
        Err(err) => return Err(Error::ParseGitShortSha(err)),
    };
    Ok(compose(stamp.as_str(), short_sha.as_str(), dirty))
}

impl ErrorView {
    /// The message shown to the operator.
    pub open spec fn message(self) -> Seq<char> {
        match self {
            ErrorView::FailedExecute(err) => "failed to execute Git: "@ + err,
            ErrorView::ParseGitShortSha(err) => "failed to parse Git short SHA: "@ + err,
        }
    }
}

impl Error {
    /// The message shown to the operator.
    pub fn to_string(&self) -> (r: String)
        ensures
            r@ == self@.message(),
    {
        match self {
            Error::FailedExecute(err) => crate::text::join("failed to execute Git: ", err.as_str()),
            Error::ParseGitShortSha(err) => crate::text::join(
                "failed to parse Git short SHA: ",
                err.as_str(),
            ),
        }
    }
}

} // verus!
