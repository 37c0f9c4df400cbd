//! The record that a template is rendered against: the values of one commit
//! that the template language can read, with those that depend on the
//! repository already looked up.
use vstd::prelude::*;

use crate::text::{chars_of, push_text};

verus! {

/// How many hex digits a short identifier keeps.
pub const SHORT_LEN: usize = 12;

/// A point in time, in the two text forms that templates show: the absolute
/// date and time, and the time relative to when the record was made.
pub struct Timestamp {
    pub absolute: String,
    pub relative: String,
}

/// Who made a change, and when.
pub struct Signature {
    pub name: String,
    pub email: String,
    pub timestamp: Timestamp,
}

/// A commit or change identifier: its hex digits and the length of the
/// shortest prefix that tells it apart from every other identifier of the
/// repository.
pub struct CommitOrChangeId {
    pub hex: String,
    pub shortest_prefix_len: usize,
}

/// An identifier cut into its shortest unique prefix and the rest of its
/// short form, for display with the prefix highlighted.
pub struct IdWithHighlightedPrefix {
    pub prefix: Vec<char>,
    pub rest: Vec<char>,
}

/// The values of one commit that templates can read.
pub struct Record {
    pub description: String,
    pub change_id: CommitOrChangeId,
    pub commit_id: CommitOrChangeId,
    pub author: Signature,
    pub committer: Signature,
    pub working_copies: String,
    pub is_working_copy: bool,
    pub branches: String,
    pub tags: String,
    pub git_refs: String,
    pub git_head: String,
    pub divergent: bool,
    pub conflict: bool,
    pub empty: bool,
}

/// The short form of an identifier: its first twelve hex digits.
pub open spec fn short_of(hex: Seq<char>) -> Seq<char> {
    if hex.len() <= SHORT_LEN {
        hex
    } else {
        hex.take(SHORT_LEN as int)
    }
}

/// The shortest unique prefix of an identifier, within its short form.
pub open spec fn prefix_of(id: CommitOrChangeId) -> Seq<char> {
    let s = short_of(id.hex@);
    if id.shortest_prefix_len <= s.len() {
        s.take(id.shortest_prefix_len as int)
    } else {
        s
    }
}

/// The rest of the short form after the shortest unique prefix.
pub open spec fn rest_of(id: CommitOrChangeId) -> Seq<char> {
    let s = short_of(id.hex@);
    if id.shortest_prefix_len <= s.len() {
        s.skip(id.shortest_prefix_len as int)
    } else {
        Seq::empty()
    }
}

/// The short form with the part after the unique prefix in brackets:
/// `prefix[rest]`, or the prefix alone where nothing follows it.
pub open spec fn bracketed_of(id: CommitOrChangeId) -> Seq<char> {
    if rest_of(id).len() == 0 {
        prefix_of(id)
    } else {
        prefix_of(id) + seq!['['] + rest_of(id) + seq![']']
    }
}

impl CommitOrChangeId {
    /// The hex digits of the identifier.
    pub fn hex_chars(&self) -> (r: Vec<char>)
        ensures
            r@ == self.hex@,
    {
        chars_of(self.hex.as_str())
    }

    /// The first twelve hex digits.
    pub fn short(&self) -> (r: Vec<char>)
        ensures
            r@ == short_of(self.hex@),
    {
        let hex = self.hex_chars();
        let mut r: Vec<char> = Vec::new();
        let mut i: usize = 0;
        while i < hex.len() && i < SHORT_LEN
            invariant
                i <= hex@.len(),
                i <= SHORT_LEN,
                r@ == hex@.take(i as int),
            decreases hex.len() - i,
        {
            r.push(hex[i]);
            assert(hex@.take(i + 1) == hex@.take(i as int).push(hex@[i as int]));
            i = i + 1;
        }
        assert(hex@.len() <= SHORT_LEN ==> hex@.take(i as int) == hex@);
        r
    }

    /// The short form cut after the shortest unique prefix.
    pub fn shortest_styled_prefix(&self) -> (r: IdWithHighlightedPrefix)
        ensures
            r.prefix@ == prefix_of(*self),
            r.rest@ == rest_of(*self),
    {
        let s = self.short();
        let cut = if self.shortest_prefix_len <= s.len() {
            self.shortest_prefix_len
        } else {
            s.len()
        };
        let mut prefix: Vec<char> = Vec::new();
        let mut rest: Vec<char> = Vec::new();
        let mut i: usize = 0;
        while i < s.len()
            invariant
                cut <= s@.len(),
                i <= s@.len(),
                prefix@ == s@.take(if i <= cut { i as int } else { cut as int }),
                rest@ == if i <= cut { Seq::<char>::empty() } else { s@.subrange(cut as int, i as int) },
            decreases s.len() - i,
        {
            if i < cut {
                prefix.push(s[i]);
                assert(s@.take(i + 1) == s@.take(i as int).push(s@[i as int]));
            } else {
                rest.push(s[i]);
                assert(s@.subrange(cut as int, i + 1) == s@.subrange(cut as int, i as int).push(
                    s@[i as int],
                ));
            }
            i = i + 1;
        }
        assert(s@.skip(cut as int) == s@.subrange(cut as int, i as int));
        IdWithHighlightedPrefix { prefix, rest }
    }

    /// The short form with the part after the unique prefix in brackets.
    pub fn shortest_prefix_and_brackets(&self) -> (r: Vec<char>)
        ensures
            r@ == bracketed_of(*self),
    {
        let parts = self.shortest_styled_prefix();
        let mut r = parts.prefix;
        if parts.rest.len() > 0 {
            r.push('[');
            push_text(&mut r, &parts.rest);
            r.push(']');
        }
        r
    }
}

} // verus!
