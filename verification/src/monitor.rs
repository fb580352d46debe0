//! The detached monitor: serialising the spawn context into the argv of
//! a monitor invocation of the control binary, and the monitor's own
//! preparation of arguments and environment.
//!
//! The spawn itself — double fork, session leadership, null stdio — is
//! platform work outside the library; everything that decides what is
//! spawned, with which argv and which environment, is verified here.

use vstd::prelude::*;
use vstd::string::{StrSliceExecFns, StringExecFns};
use crate::strutil::{
    ends_with_spec, find_char, first_index, joined_path, lemma_find_matches_first_index,
    pair_views, path_join, str_ends_with, views_of,
};

verus! {

/// An environment assignment split at its first equals sign, when it
/// has one.
pub open spec fn spec_env_pair(s: Seq<char>) -> Option<(Seq<char>, Seq<char>)> {
    let i = first_index(s, '=');
    if i == -1 {
        None
    } else {
        Some((s.subrange(0, i), s.subrange(i + 1, s.len() as int)))
    }
}

/// The well-formed assignments of a list, split into name and value;
/// entries without an equals sign are dropped.
pub open spec fn spec_env_pairs(vs: Seq<Seq<char>>) -> Seq<(Seq<char>, Seq<char>)>
    decreases vs.len(),
{
    if vs.len() == 0 {
        Seq::empty()
    } else {
        let rest = spec_env_pairs(vs.drop_last());
        match spec_env_pair(vs.last()) {
            Some(p) => rest.push(p),
            None => rest,
        }
    }
}

/// Splits `NAME=VALUE` assignments into pairs, dropping entries with no
/// equals sign.
pub fn parse_env_pairs(vs: &Vec<String>) -> (r: Vec<(String, String)>)
    ensures
        pair_views(r@) == spec_env_pairs(views_of(vs@)),
{
    let mut r: Vec<(String, String)> = Vec::new();
    let mut i: usize = 0;
    while i < vs.len()
        invariant
            0 <= i <= vs.len(),
            pair_views(r@) == spec_env_pairs(views_of(vs@.subrange(0, i as int))),
        decreases vs.len() - i,
    {
        proof {
            assert(views_of(vs@.subrange(0, i + 1)).drop_last() =~= views_of(
                vs@.subrange(0, i as int),
            ));
            assert(views_of(vs@.subrange(0, i + 1)).last() == vs@[i as int]@);
        }
        let s = &vs[i];
        let n = s.as_str().unicode_len();
        let eq = find_char(s.as_str(), 0, '=');
        proof {
            lemma_find_matches_first_index(s@, '=', eq);
        }
        match eq {
            Some(p) => {
                let key = s.as_str().substring_char(0, p).to_owned();
                let value = s.as_str().substring_char(p + 1, n).to_owned();
                r.push((key, value));
                proof {
                    assert(pair_views(r@) =~= spec_env_pairs(views_of(vs@.subrange(0, i + 1))));
                }
            },
            None => {
                proof {
                    assert(pair_views(r@) =~= spec_env_pairs(views_of(vs@.subrange(0, i + 1))));
                }
            },
        }
        i = i + 1;
    }
    proof {
        assert(vs@.subrange(0, vs@.len() as int) =~= vs@);
    }
    r
}

/// A script argument resolved against the working directory: a bare
/// `.py` file name is taken under the working directory; anything that
/// already carries a path separator, or is no script, stays as it is.
pub open spec fn spec_fixed_arg(a: Seq<char>, wd: Seq<char>) -> Seq<char> {
    if ends_with_spec(a, ".py"@) && first_index(a, '/') == -1 && first_index(a, '\\') == -1 {
        joined_path(wd, a)
    } else {
        a
    }
}

/// Resolves bare script arguments against the working directory.
pub fn fix_script_args(args: &Vec<String>, working_dir: &str) -> (r: Vec<String>)
    ensures
        r@.len() == args@.len(),
        forall|i: int| 0 <= i < args@.len() ==> #[trigger] r@[i]@ == spec_fixed_arg(
            args@[i]@,
            working_dir@,
        ),
{
    let mut r: Vec<String> = Vec::new();
    let mut i: usize = 0;
    while i < args.len()
        invariant
            0 <= i <= args.len(),
            r@.len() == i,
            forall|j: int| 0 <= j < i ==> #[trigger] r@[j]@ == spec_fixed_arg(
                args@[j]@,
                working_dir@,
            ),
        decreases args.len() - i,
    {
        let a = &args[i];
        let is_script = str_ends_with(a.as_str(), ".py");
        proof {
            reveal_strlit(".py");
        }
        let slash = find_char(a.as_str(), 0, '/');
        let backslash = find_char(a.as_str(), 0, '\\');
        proof {
            lemma_find_matches_first_index(a@, '/', slash);
            lemma_find_matches_first_index(a@, '\\', backslash);
        }
        if is_script && slash.is_none() && backslash.is_none() {
            r.push(path_join(working_dir, a.as_str()));
        } else {
            r.push(a.clone());
        }
        i = i + 1;
    }
    r
}

/// The `--args` section of a monitor invocation: each argument behind
/// its own flag.
pub open spec fn spec_args_section(args: Seq<Seq<char>>) -> Seq<Seq<char>>
    decreases args.len(),
{
    if args.len() == 0 {
        Seq::empty()
    } else {
        spec_args_section(args.drop_last()) + seq!["--args"@, args.last()]
    }
}

/// The `--env` section of a monitor invocation: each variable behind
/// its own flag, reassembled as `NAME=VALUE`.
pub open spec fn spec_env_section(env: Seq<(Seq<char>, Seq<char>)>) -> Seq<Seq<char>>
    decreases env.len(),
{
    if env.len() == 0 {
        Seq::empty()
    } else {
        spec_env_section(env.drop_last()) + seq!["--env"@, env.last().0 + "="@ + env.last().1]
    }
}

/// The full argv a control invocation hands to its detached monitor
/// invocation: the subcommand, the spawn context, every argument and
/// variable behind its flag, and the restart switch when it is on.
pub open spec fn spec_monitor_argv(
    name: Seq<char>,
    program: Seq<char>,
    config_path: Seq<char>,
    working_dir: Seq<char>,
    args: Seq<Seq<char>>,
    env: Seq<(Seq<char>, Seq<char>)>,
    auto_restart: bool,
) -> Seq<Seq<char>> {
    seq![
        "monitor"@,
        "--process-name"@,
        name,
        "--program"@,
        program,
        "--config"@,
        config_path,
    ] + spec_args_section(args) + seq!["--working-dir"@, working_dir] + spec_env_section(env) + (
    if auto_restart {
        seq!["--auto-restart"@]
    } else {
        Seq::empty()
    })
}

/// Serialises the spawn context of a process into the argv of its
/// monitor invocation.
pub fn monitor_invocation_args(
    name: &str,
    program: &str,
    config_path: &str,
    working_dir: &str,
    args: &Vec<String>,
    env: &Vec<(String, String)>,
    auto_restart: bool,
) -> (r: Vec<String>)
    ensures
        views_of(r@) == spec_monitor_argv(
            name@,
            program@,
            config_path@,
            working_dir@,
            views_of(args@),
            pair_views(env@),
            auto_restart,
        ),
{
    let ghost prefix: Seq<Seq<char>> = seq![
        "monitor"@,
        "--process-name"@,
        name@,
        "--program"@,
        program@,
        "--config"@,
        config_path@,
    ];
    let mut v: Vec<String> = Vec::new();
    v.push("monitor".to_owned());
    v.push("--process-name".to_owned());
    v.push(name.to_owned());
    v.push("--program".to_owned());
    v.push(program.to_owned());
    v.push("--config".to_owned());
    v.push(config_path.to_owned());
    proof {
        assert(views_of(v@) =~= prefix);
    }
    let mut i: usize = 0;
    while i < args.len()
        invariant
            0 <= i <= args.len(),
            views_of(v@) == prefix + spec_args_section(views_of(args@.subrange(0, i as int))),
        decreases args.len() - i,
    {
        proof {
            assert(views_of(args@.subrange(0, i + 1)).drop_last() =~= views_of(
                args@.subrange(0, i as int),
            ));
            assert(views_of(args@.subrange(0, i + 1)).last() == args@[i as int]@);
        }
        let ghost before = v@;
        v.push("--args".to_owned());
        v.push(args[i].clone());
        proof {
            reveal_strlit("--args");
            assert(spec_args_section(views_of(args@.subrange(0, i + 1))) == spec_args_section(
                views_of(args@.subrange(0, i as int)),
            ) + seq!["--args"@, args@[i as int]@]);
            assert(views_of(v@) =~= views_of(before) + seq!["--args"@, args@[i as int]@]);
            assert(views_of(v@) =~= prefix + spec_args_section(
                views_of(args@.subrange(0, i + 1)),
            ));
        }
        i = i + 1;
    }
    proof {
        assert(args@.subrange(0, args@.len() as int) =~= args@);
    }
    let ghost with_args = prefix + spec_args_section(views_of(args@));
    v.push("--working-dir".to_owned());
    v.push(working_dir.to_owned());
    let ghost with_wd = with_args + seq!["--working-dir"@, working_dir@];
    proof {
        assert(views_of(v@) =~= with_wd);
    }
    let mut j: usize = 0;
    while j < env.len()
        invariant
            0 <= j <= env.len(),
            views_of(v@) == with_wd + spec_env_section(pair_views(env@.subrange(0, j as int))),
        decreases env.len() - j,
    {
        proof {
            assert(pair_views(env@.subrange(0, j + 1)).drop_last() =~= pair_views(
                env@.subrange(0, j as int),
            ));
            assert(pair_views(env@.subrange(0, j + 1)).last() == (env@[j as int].0@, env@[
                j as int
            ].1@));
            reveal_strlit("=");
        }
        let mut kv = env[j].0.clone();
        kv.append("=");
        kv.append(env[j].1.as_str());
        let ghost before = v@;
        v.push("--env".to_owned());
        v.push(kv);
        proof {
            reveal_strlit("--env");
            assert(spec_env_section(pair_views(env@.subrange(0, j + 1))) == spec_env_section(
                pair_views(env@.subrange(0, j as int)),
            ) + seq!["--env"@, env@[j as int].0@ + "="@ + env@[j as int].1@]);
            assert(views_of(v@) =~= views_of(before) + seq![
                "--env"@,
                env@[j as int].0@ + "="@ + env@[j as int].1@,
            ]);
            assert(views_of(v@) =~= with_wd + spec_env_section(
                pair_views(env@.subrange(0, j + 1)),
            ));
        }
        j = j + 1;
    }
    proof {
        assert(env@.subrange(0, env@.len() as int) =~= env@);
    }
    if auto_restart {
        v.push("--auto-restart".to_owned());
    }
    proof {
        reveal_strlit("monitor");
        reveal_strlit("--process-name");
        reveal_strlit("--program");
        reveal_strlit("--config");
        reveal_strlit("--args");
        reveal_strlit("--working-dir");
        reveal_strlit("--env");
        reveal_strlit("--auto-restart");
        assert(views_of(v@) =~= spec_monitor_argv(
            name@,
            program@,
            config_path@,
            working_dir@,
            views_of(args@),
            pair_views(env@),
            auto_restart,
        ));
    }
    v
}

} // verus!
