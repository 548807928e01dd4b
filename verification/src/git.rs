//! The version control: what is read of what Git prints.

use crate::pipeline::GitMetadata;
use crate::text::{optional, stripped_suffix, trimmed};
use vstd::prelude::*;
use vstd::utf8::{decode_utf8, valid_utf8};

verus! {

/// What repository addresses may end with.
pub const GIT_SUFFIX: &'static str = ".git";

/// A repository: who owns it, and what it is called.
#[derive(Debug, Clone)]
pub struct Repository {
    pub owner: String,
    pub name: String,
}

/// Whether the character parts the segments of an address.
pub open spec fn is_separator(c: char) -> bool {
    c == '/' || c == ':'
}

/// The place of the last separator of an address.
pub open spec fn last_separator(s: Seq<char>) -> Option<int>
    decreases s.len(),
{
    if s.len() == 0 {
        None
    } else if is_separator(s.last()) {
        Some(s.len() - 1)
    } else {
        last_separator(s.drop_last())
    }
}

/// The address of a repository as Git prints it, without the white space
/// around it and without the `.git` that may end it.
pub open spec fn bare_address(remote: Seq<char>) -> Seq<char> {
    match stripped_suffix(trimmed(remote), GIT_SUFFIX@) {
        Some(address) => address,
        None => trimmed(remote),
    }
}

/// The last segment of an address: what follows its last separator, or
/// all of it where it has none.
pub open spec fn last_segment(address: Seq<char>) -> Seq<char> {
    match last_separator(address) {
        Some(i) => address.skip(i + 1),
        None => address,
    }
}

/// The owner and the name of the repository at an address: its last two
/// segments. There are none where the address has no separator, or where
/// either segment is empty.
pub open spec fn repository_of(remote: Seq<char>) -> Option<(Seq<char>, Seq<char>)> {
    let address = bare_address(remote);
    match last_separator(address) {
        None => None,
        Some(i) => {
            let name = address.skip(i + 1);
            let owner = last_segment(address.take(i));
            if name.len() > 0 && owner.len() > 0 {
                Some((owner, name))
            } else {
                None
            }
        },
    }
}

/// The place of the last separator of an address.
pub fn find_last_separator(s: &str) -> (r: Option<usize>)
    ensures
        match r {
            Some(i) => last_separator(s@) == Some(i as int) && i < s@.len(),
            None => last_separator(s@) is None,
        },
{
    let n = s.unicode_len();
    let mut k: usize = n;
    assert(s@.take(n as int) =~= s@);
    while k > 0
        invariant
            k <= n,
            n == s@.len(),
            last_separator(s@) == last_separator(s@.take(k as int)),
        decreases k,
    {
        let c = s.get_char(k - 1);
        proof {
            assert(s@.take(k as int).last() == s@[k - 1]);
            assert(s@.take(k as int).drop_last() =~= s@.take(k - 1));
        }
        if c == '/' || c == ':' {
            return Some(k - 1);
        }
        k -= 1;
    }
    None
}

/// The owner and the name of the repository at the address `remote`, as
/// Git prints it.
pub fn repository(remote: &str) -> (r: Option<Repository>)
    ensures
        match r {
            Some(repository) => repository_of(remote@) == Some(
                (repository.owner@, repository.name@),
            ),
            None => repository_of(remote@) is None,
        },
{
    let bare = crate::text::trim(remote);
    let address = match crate::text::strip_suffix(bare.as_str(), GIT_SUFFIX) {
        Some(address) => address,
        None => bare,
    };
    let n = address.as_str().unicode_len();
    let i = match find_last_separator(address.as_str()) {
        Some(i) => i,
        None => return None,
    };
    let name = address.as_str().substring_char(i + 1, n);
    let front = address.as_str().substring_char(0, i);
    proof {
        assert(address@.skip(i + 1) =~= address@.subrange(i + 1, n as int));
        assert(address@.take(i as int) =~= address@.subrange(0, i as int));
    }
    let owner = match find_last_separator(front) {
        Some(j) => {
            proof {
                assert(front@.skip(j + 1) =~= front@.subrange(j + 1, i as int));
            }
            front.substring_char(j + 1, i)
        },
        None => front,
    };
    if name.unicode_len() > 0 && owner.unicode_len() > 0 {
        Some(Repository { owner: owner.to_owned(), name: name.to_owned() })
    } else {
        None
    }
}

/// Why the version control says nothing of the source tree.
pub const NO_TEXT: &'static str = "git printed what is no text";

/// Why the address of the repository is of no use.
pub const NO_REPOSITORY: &'static str = "git names no repository with an owner";

/// What the version control says of the source tree, given what Git
/// printed as the short name of the commit and as the address of the
/// repository, or why it could not be run.
pub open spec fn metadata_of(
    head: Result<Vec<u8>, String>,
    remote: Result<Vec<u8>, String>,
) -> Result<crate::pipeline::GitMetadataView, Seq<char>> {
    match head {
        Err(err) => Err(err@),
        Ok(commit) => if !valid_utf8(commit@) {
            Err(NO_TEXT@)
        } else {
            match remote {
                Err(err) => Err(err@),
                Ok(address) => if !valid_utf8(address@) {
                    Err(NO_TEXT@)
                } else {
                    match repository_of(decode_utf8(address@)) {
                        Some((owner, name)) => Ok(
                            crate::pipeline::GitMetadataView {
                                short_sha: trimmed(decode_utf8(commit@)),
                                owner,
                                name,
                            },
                        ),
                        None => Err(NO_REPOSITORY@),
                    }
                },
            }
        },
    }
}

/// Reads what Git printed: `head` as the short name of the commit, and
/// `remote` as the address of the repository.
pub fn metadata(head: Result<Vec<u8>, String>, remote: Result<Vec<u8>, String>) -> (r: Result<
    GitMetadata,
    String,
>)
    ensures
        match r {
            Ok(found) => metadata_of(head, remote) == Ok::<
                crate::pipeline::GitMetadataView,
                Seq<char>,
            >(found@),
            Err(err) => metadata_of(head, remote) == Err::<
                crate::pipeline::GitMetadataView,
                Seq<char>,
            >(err@),
        },
{
    let commit = match head {
        Ok(commit) => commit,
        Err(err) => return Err(err),
    };
    let short_sha = match crate::text::decode(commit) {
        Ok(text) => crate::text::trim(text.as_str()),
        Err(_) => return Err(NO_TEXT.to_owned()),
    };
    let address = match remote {
        Ok(address) => address,
        Err(err) => return Err(err),
    };
    let address = match crate::text::decode(address) {
        Ok(text) => text,
        Err(_) => return Err(NO_TEXT.to_owned()),
    };
    match repository(address.as_str()) {
        Some(found) => Ok(GitMetadata { short_sha, owner: found.owner, name: found.name }),
        None => Err(NO_REPOSITORY.to_owned()),
    }
}

} // verus!
