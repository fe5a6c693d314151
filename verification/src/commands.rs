//! The front-end command layer: enable or disable expansion, replace the
//! snippet table from parallel keyword and text lists, and query the flag.

use vstd::prelude::*;
use crate::expander::AutoExpander;
use crate::snippets::entries_map;

verus! {

/// Why a front-end command was refused.
#[derive(Clone, Copy, PartialEq, Eq, Structural, Debug)]
pub enum CommandError {
    /// The command was invoked before the expander existed.
    NotInitialized,
    /// `update_snippets_map` was given keyword and text lists of different
    /// lengths.
    LengthMismatch,
}

/// The state the front-end commands operate on: the expander, once it has
/// been initialized.
pub struct AppState {
    pub auto_expander: Option<AutoExpander>,
}

/// The (keyword, text) pairs two parallel lists denote, matched up by
/// position. Meaningful when the lists have equal length.
pub open spec fn paired_entries(keywords: Seq<String>, texts: Seq<String>) -> Seq<(String, String)> {
    Seq::new(keywords.len(), |i: int| (keywords[i], texts[i]))
}

/// Turn auto-expansion on. Fails, changing nothing, iff the expander was
/// never initialized; the buffer and the snippet store are left as they are.
pub fn enable_auto_expansion(state: &mut AppState) -> (r: Result<(), CommandError>)
    ensures
        r is Ok <==> old(state).auto_expander is Some,
        r matches Err(e) ==> e is NotInitialized && final(state).auto_expander == old(
            state,
        ).auto_expander,
        old(state).auto_expander matches Some(exp) ==> ({
            &&& final(state).auto_expander matches Some(cur)
            &&& cur.enabled
            &&& cur.buffer == exp.buffer
            &&& cur.snippet_map == exp.snippet_map
        }),
{
    match &mut state.auto_expander {
        Some(exp) => {
            exp.set_enabled(true);
            Ok(())
        },
        None => Err(CommandError::NotInitialized),
    }
}

/// Turn auto-expansion off. Fails, changing nothing, iff the expander was
/// never initialized. The buffer is deliberately not cleared: its contents
/// from before the disable remain intact.
pub fn disable_auto_expansion(state: &mut AppState) -> (r: Result<(), CommandError>)
    ensures
        r is Ok <==> old(state).auto_expander is Some,
        r matches Err(e) ==> e is NotInitialized && final(state).auto_expander == old(
            state,
        ).auto_expander,
        old(state).auto_expander matches Some(exp) ==> ({
            &&& final(state).auto_expander matches Some(cur)
            &&& !cur.enabled
            &&& cur.buffer == exp.buffer
            &&& cur.snippet_map == exp.snippet_map
        }),
{
    match &mut state.auto_expander {
        Some(exp) => {
            exp.set_enabled(false);
            Ok(())
        },
        None => Err(CommandError::NotInitialized),
    }
}

/// Replace the whole snippet table with the pairs the two parallel lists
/// denote. Fails iff the lists differ in length, and then leaves the existing
/// state fully intact; on success the buffer and the enabled flag are
/// untouched and the store holds exactly the new pairs, last one winning on
/// duplicate keywords.
pub fn update_snippets_map(
    keywords: Vec<String>,
    texts: Vec<String>,
    state: &mut AppState,
) -> (r: Result<(), CommandError>)
    ensures
        r is Ok <==> keywords@.len() == texts@.len(),
        r matches Err(e) ==> e is LengthMismatch && final(state).auto_expander == old(
            state,
        ).auto_expander,
        keywords@.len() == texts@.len() && old(state).auto_expander is None ==> final(state)
            .auto_expander is None,
        keywords@.len() == texts@.len() ==> (old(state).auto_expander matches Some(exp) ==> ({
            &&& final(state).auto_expander matches Some(cur)
            &&& cur.snippet_map@ == entries_map(paired_entries(keywords@, texts@))
            &&& cur.buffer == exp.buffer
            &&& cur.enabled == exp.enabled
        })),
{
    if keywords.len() != texts.len() {
        return Err(CommandError::LengthMismatch);
    }
    let mut snippets: Vec<(String, String)> = Vec::new();
    let mut i: usize = 0;
    while i < keywords.len()
        invariant
            i <= keywords@.len(),
            keywords@.len() == texts@.len(),
            snippets@ == paired_entries(keywords@, texts@).take(i as int),
        decreases keywords@.len() - i,
    {
        snippets.push((keywords[i].clone(), texts[i].clone()));
        proof {
            assert(snippets@ =~= paired_entries(keywords@, texts@).take(i + 1));
        }
        i = i + 1;
    }
    proof {
        assert(snippets@ =~= paired_entries(keywords@, texts@));
    }
    match &mut state.auto_expander {
        Some(exp) => {
            exp.snippet_map.update(snippets);
        },
        None => {},
    }
    Ok(())
}

/// Whether auto-expansion is currently enabled. Never fails: before the
/// expander exists it reports false.
pub fn is_auto_expansion_enabled(state: &AppState) -> (r: Result<bool, CommandError>)
    ensures
        r is Ok,
        r matches Ok(b) ==> b == (state.auto_expander matches Some(exp) && exp.enabled),
{
    match &state.auto_expander {
        Some(exp) => Ok(exp.is_enabled()),
        None => Ok(false),
    }
}

} // verus!
