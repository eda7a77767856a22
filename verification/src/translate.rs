//! The translation engine: resolves one semantic invocation (alias
//! token plus trailing arguments) into a concrete program name and
//! argument list, substituting semantic path arguments.

use vstd::prelude::*;

use crate::store::{entries_view, lemma_lookup_is_map, lookup, lookup_spec, SemanticConfig};
use crate::strutil::{split_ws, split_ws_spec, strs_view};

verus! {

/// A resolved invocation: the program to run and its full argument
/// list.
#[derive(Debug, Clone)]
pub struct ExecutionPlan {
    pub program: String,
    pub args: Vec<String>,
}

/// Why a semantic invocation could not be resolved; each variant
/// carries the offending token.
#[derive(Debug)]
pub enum TranslationError {
    /// The token is not in the command table.
    UnknownCommand(String),
    /// The token resolves to a blank command string.
    MalformedMapping(String),
}

/// A trailing argument after path substitution: the mapped real path
/// where the whole argument is a semantic path token, the argument
/// itself otherwise.
pub open spec fn subst_path(pmap: Map<Seq<char>, Seq<char>>, a: Seq<char>) -> Seq<char> {
    if pmap.contains_key(a) {
        pmap[a]
    } else {
        a
    }
}

/// Resolves `token` through the store's command table, splits the
/// resolved command into program and fixed arguments, and appends the
/// trailing arguments with each one substituted through the path
/// table.
pub fn translate(store: &SemanticConfig, token: &str, trailing: &Vec<String>) -> (r: Result<
    ExecutionPlan,
    TranslationError,
>)
    ensures
        !store.command_map().contains_key(token@) ==> (r matches Err(
            TranslationError::UnknownCommand(t),
        ) && t@ == token@),
        store.command_map().contains_key(token@) && split_ws_spec(
            store.command_map()[token@],
        ).len() == 0 ==> (r matches Err(TranslationError::MalformedMapping(t)) && t@ == token@),
        store.command_map().contains_key(token@) && split_ws_spec(
            store.command_map()[token@],
        ).len() > 0 ==> (r matches Ok(plan) && {
            let parts = split_ws_spec(store.command_map()[token@]);
            &&& plan.program@ == parts[0]
            &&& strs_view(plan.args@) == parts.drop_first() + strs_view(trailing@).map_values(
                |a: Seq<char>| subst_path(store.path_map(), a),
            )
        }),
{
    proof {
        lemma_lookup_is_map(entries_view(store.commands@), token@);
    }
    let resolved = match lookup(&store.commands, token) {
        Some(v) => v,
        None => {
            return Err(TranslationError::UnknownCommand(String::from_str(token)));
        },
    };
    let parts = split_ws(resolved.as_str());
    let ghost parts_v = split_ws_spec(store.command_map()[token@]);
    if parts.len() == 0 {
        return Err(TranslationError::MalformedMapping(String::from_str(token)));
    }
    let program = parts[0].clone();
    let mut args: Vec<String> = Vec::new();
    let mut k: usize = 1;
    proof {
        assert(strs_view(args@) =~= parts_v.subrange(1, 1));
    }
    while k < parts.len()
        invariant
            1 <= k <= parts.len(),
            parts_v == strs_view(parts@),
            strs_view(args@) == parts_v.subrange(1, k as int),
        decreases parts.len() - k,
    {
        let next = parts[k].clone();
        let ghost pre = args@;
        args.push(next);
        proof {
            assert(strs_view(args@) =~= strs_view(pre).push(parts_v[k as int]));
            assert(strs_view(pre).push(parts_v[k as int]) =~= parts_v.subrange(1, k as int + 1));
        }
        k = k + 1;
    }
    let ghost pmap = store.path_map();
    let ghost fixed = parts_v.drop_first();
    proof {
        assert(fixed =~= parts_v.subrange(1, parts_v.len() as int));
        assert(strs_view(args@) =~= fixed + strs_view(trailing@).subrange(0, 0).map_values(
            |a: Seq<char>| subst_path(pmap, a),
        ));
    }
    let mut j: usize = 0;
    while j < trailing.len()
        invariant
            j <= trailing.len(),
            pmap == store.path_map(),
            strs_view(args@) == fixed + strs_view(trailing@).subrange(0, j as int).map_values(
                |a: Seq<char>| subst_path(pmap, a),
            ),
        decreases trailing.len() - j,
    {
        proof {
            lemma_lookup_is_map(entries_view(store.paths@), trailing@[j as int]@);
        }
        let next = match lookup(&store.paths, trailing[j].as_str()) {
            Some(mapped) => mapped,
            None => trailing[j].clone(),
        };
        let ghost f = |a: Seq<char>| subst_path(pmap, a);
        proof {
            assert(next@ == f(trailing@[j as int]@));
        }
        let ghost pre = args@;
        args.push(next);
        proof {
            let ghost done = strs_view(trailing@).subrange(0, j as int).map_values(f);
            assert(strs_view(args@) =~= strs_view(pre).push(f(trailing@[j as int]@)));
            assert(strs_view(trailing@).subrange(0, j as int + 1) =~= strs_view(
                trailing@,
            ).subrange(0, j as int).push(trailing@[j as int]@));
            assert(strs_view(trailing@).subrange(0, j as int).push(
                trailing@[j as int]@,
            ).map_values(f) =~= done.push(f(trailing@[j as int]@)));
            assert((fixed + done).push(f(trailing@[j as int]@)) =~= fixed + done.push(
                f(trailing@[j as int]@),
            ));
        }
        j = j + 1;
    }
    proof {
        assert(strs_view(trailing@).subrange(0, trailing@.len() as int) =~= strs_view(trailing@));
    }
    Ok(ExecutionPlan { program, args })
}

} // verus!
