//! The auto-expansion state machine: a bounded buffer of recently typed
//! characters, an enabled flag, and the decision what synthetic input to emit
//! when a word-boundary key is pressed.

use vstd::prelude::*;
use crate::keys::{action_of, classify_key, KeyAction, KeyId};
use crate::snippets::SnippetMap;

verus! {

/// Upper bound on the typed-character buffer. Appending beyond the bound
/// evicts the oldest character first.
pub const BUFFER_CAPACITY: usize = 100;

/// Synthetic input requested by a matched expansion: first `erase_count`
/// backspace clicks, one per character of the matched keyword, then the
/// expansion `text` typed verbatim.
pub struct Injection {
    pub erase_count: usize,
    pub text: String,
}

/// A character that trimming removes from the ends of the buffer. No
/// classified character is whitespace, so on a reachable buffer trimming
/// changes nothing; it is applied before every lookup all the same.
pub open spec fn is_trimmable(c: char) -> bool {
    c == ' ' || c == '\t' || c == '\n' || c == '\r'
}

/// A character sequence with leading and trailing whitespace removed.
pub open spec fn trimmed_seq(s: Seq<char>) -> Seq<char>
    decreases s.len(),
{
    if s.len() == 0 {
        s
    } else if is_trimmable(s[0]) {
        trimmed_seq(s.drop_first())
    } else if is_trimmable(s.last()) {
        trimmed_seq(s.drop_last())
    } else {
        s
    }
}

/// A character append with the FIFO bound applied: when the appended sequence
/// would exceed the capacity, the oldest character is evicted.
pub open spec fn push_bounded(s: Seq<char>, c: char) -> Seq<char> {
    if s.len() + 1 > BUFFER_CAPACITY {
        s.push(c).drop_first()
    } else {
        s.push(c)
    }
}

/// Law: once the buffer holds `BUFFER_CAPACITY` characters, each further
/// append evicts exactly the oldest character: the result is the old buffer
/// without its first character, with the new character at the end, still at
/// the capacity bound.
pub proof fn lemma_full_buffer_evicts_oldest(s: Seq<char>, c: char)
    requires
        s.len() == BUFFER_CAPACITY,
    ensures
        push_bounded(s, c).len() == BUFFER_CAPACITY,
        push_bounded(s, c) == s.drop_first().push(c),
{
    assert(s.push(c).drop_first() =~= s.drop_first().push(c));
}

fn is_trim_char(c: char) -> (b: bool)
    ensures
        b == is_trimmable(c),
{
    c == ' ' || c == '\t' || c == '\n' || c == '\r'
}

/// A copy of the given characters with leading and trailing whitespace
/// removed.
fn trim_chars(v: &Vec<char>) -> (r: Vec<char>)
    ensures
        r@ == trimmed_seq(v@),
{
    let mut w: Vec<char> = Vec::new();
    let mut i: usize = 0;
    while i < v.len()
        invariant
            i <= v@.len(),
            w@ == v@.take(i as int),
        decreases v@.len() - i,
    {
        w.push(v[i]);
        proof {
            assert(w@ =~= v@.take(i + 1));
        }
        i = i + 1;
    }
    proof {
        assert(w@ =~= v@);
    }
    while w.len() > 0 && is_trim_char(w[0])
        invariant
            trimmed_seq(w@) == trimmed_seq(v@),
        decreases w@.len(),
    {
        proof {
            assert(trimmed_seq(w@) == trimmed_seq(w@.drop_first()));
        }
        w.remove(0);
    }
    while w.len() > 0 && is_trim_char(w[w.len() - 1])
        invariant
            trimmed_seq(w@) == trimmed_seq(v@),
            w@.len() > 0 ==> !is_trimmable(w@[0]),
        decreases w@.len(),
    {
        proof {
            assert(trimmed_seq(w@) == trimmed_seq(w@.drop_last()));
        }
        w.pop();
    }
    w
}

/// Relies on `Iterator::collect` through `String: FromIterator<&char>`: the
/// collected string holds exactly the given characters in order.
#[verifier::external_body]
fn chars_to_string(v: &Vec<char>) -> (s: String)
    ensures
        s@ == v@,
{
    v.iter().collect()
}

/// Owns the typed-character buffer, the enabled flag, and the snippet store
/// it matches against. Consumes one classified key press at a time.
pub struct AutoExpander {
    pub buffer: Vec<char>,
    pub snippet_map: SnippetMap,
    pub enabled: bool,
}

impl AutoExpander {
    /// The buffer never exceeds the capacity bound.
    pub open spec fn wf(&self) -> bool {
        self.buffer@.len() <= BUFFER_CAPACITY
    }

    /// A fresh expander: empty buffer, disabled, matching against the given
    /// store.
    pub fn new(snippet_map: SnippetMap) -> (e: Self)
        ensures
            e.buffer@ == Seq::<char>::empty(),
            !e.enabled,
            e.snippet_map == snippet_map,
            e.wf(),
    {
        AutoExpander { buffer: Vec::new(), snippet_map, enabled: false }
    }

    /// Toggle the enabled flag. The buffer is deliberately left as it is:
    /// keystrokes buffered before a disable survive a disable/enable cycle.
    pub fn set_enabled(&mut self, enabled: bool)
        ensures
            final(self).enabled == enabled,
            final(self).buffer == old(self).buffer,
            final(self).snippet_map == old(self).snippet_map,
    {
        self.enabled = enabled;
    }

    /// Whether key presses are currently processed.
    pub fn is_enabled(&self) -> (r: bool)
        ensures
            r == self.enabled,
    {
        self.enabled
    }

    /// Consume one key press and decide what synthetic input to emit.
    ///
    /// While disabled, the press is dropped entirely: the buffer keeps its
    /// contents and nothing is injected. While enabled, a character key is
    /// appended under the FIFO bound; a word-boundary key looks the trimmed
    /// buffer up in the store and, exactly on a match, requests one backspace
    /// per character of the trimmed keyword followed by the stored expansion
    /// typed verbatim, and clears the buffer whether or not it matched;
    /// backspace removes the most recent buffered character, if any; every
    /// other key leaves the buffer untouched. The store and the flag are
    /// never changed here.
    pub fn handle_key(&mut self, key: KeyId) -> (inj: Option<Injection>)
        requires
            old(self).wf(),
        ensures
            final(self).wf(),
            final(self).enabled == old(self).enabled,
            final(self).snippet_map == old(self).snippet_map,
            !old(self).enabled ==> final(self).buffer == old(self).buffer && inj is None,
            old(self).enabled ==> match action_of(key) {
                KeyAction::Character(c) => final(self).buffer@ == push_bounded(
                    old(self).buffer@,
                    c,
                ) && inj is None,
                KeyAction::WordBoundary => final(self).buffer@ == Seq::<char>::empty() && ({
                    let kw = trimmed_seq(old(self).buffer@);
                    &&& (inj is Some <==> old(self).snippet_map@.contains_key(kw))
                    &&& (inj matches Some(j) ==> j.erase_count == kw.len() && j.text@ == old(
                        self,
                    ).snippet_map@[kw])
                }),
                KeyAction::EraseLast => inj is None && final(self).buffer@ == (if old(
                    self,
                ).buffer@.len() == 0 {
                    old(self).buffer@
                } else {
                    old(self).buffer@.drop_last()
                }),
                KeyAction::Ignore => final(self).buffer == old(self).buffer && inj is None,
            },
    {
        if !self.enabled {
            return None;
        }
        match classify_key(key) {
            KeyAction::WordBoundary => {
                let trimmed = trim_chars(&self.buffer);
                let keyword = chars_to_string(&trimmed);
                let inj = match self.snippet_map.get(keyword.as_str()) {
                    Some(expansion) => Some(
                        Injection { erase_count: trimmed.len(), text: expansion },
                    ),
                    None => None,
                };
                self.buffer.clear();
                inj
            },
            KeyAction::EraseLast => {
                let _ = self.buffer.pop();
                proof {
                    if old(self).buffer@.len() > 0 {
                        assert(self.buffer@ =~= old(self).buffer@.drop_last());
                    }
                }
                None
            },
            KeyAction::Character(c) => {
                self.buffer.push(c);
                if self.buffer.len() > BUFFER_CAPACITY {
                    self.buffer.remove(0);
                    proof {
                        assert(self.buffer@ =~= old(self).buffer@.push(c).drop_first());
                    }
                }
                None
            },
            KeyAction::Ignore => None,
        }
    }
}

} // verus!
