//! Composing and rendering the invocation of the external contract-build
//! tool: which arguments and environment overrides each build gets, and the
//! shell-safe command line that is printed before the child process runs.

use vstd::prelude::*;

use crate::Strip;
use crate::text::{contains_seq, matches_at};

verus! {

/// A child-process invocation, kept as plain values so that the composed
/// argument list and the printed command line can be verified; spawning the
/// process happens outside the library.
pub struct CommandLine {
    /// Environment overrides, applied in order as `KEY=value`.
    pub envs: Vec<(String, String)>,
    /// Arguments handed to the program, in order.
    pub args: Vec<String>,
}

/// Characters a POSIX shell takes literally; a value made only of these
/// needs no quoting.
pub open spec fn shell_plain_char(c: char) -> bool {
    ||| 'a' as u32 <= c as u32 && c as u32 <= 'z' as u32
    ||| 'A' as u32 <= c as u32 && c as u32 <= 'Z' as u32
    ||| '0' as u32 <= c as u32 && c as u32 <= '9' as u32
    ||| c == '-'
    ||| c == '_'
    ||| c == '='
    ||| c == '/'
    ||| c == ','
    ||| c == '.'
    ||| c == '+'
}

/// How one character is written inside a single-quoted shell string: a
/// quote or an exclamation mark closes the string, stands backslash-escaped
/// and reopens it; every other character stands as it is.
pub open spec fn escaped_char(c: char) -> Seq<char> {
    if c == '\'' || c == '!' {
        seq!['\'', '\\', c, '\'']
    } else {
        seq![c]
    }
}

/// The body of a single-quoted shell string: each character escaped in turn.
pub open spec fn escaped_body(s: Seq<char>) -> Seq<char>
    decreases s.len(),
{
    if s.len() == 0 {
        Seq::<char>::empty()
    } else {
        escaped_char(s[0]) + escaped_body(s.drop_first())
    }
}

/// A value escaped for a POSIX shell: a non-empty value of shell-plain
/// characters stands unchanged; any other value is wrapped in single
/// quotes with its characters escaped.
pub open spec fn shell_escaped(s: Seq<char>) -> Seq<char> {
    if s.len() > 0 && (forall|i: int| 0 <= i < s.len() ==> shell_plain_char(s[i])) {
        s
    } else {
        seq!['\''] + escaped_body(s) + seq!['\'']
    }
}

/// Relies on `shell_escape::unix::escape`: returns a non-empty value made
/// only of its whitelisted characters unchanged, and wraps any other value
/// in single quotes, escaping embedded quotes and exclamation marks; the
/// result depends on the characters alone.
#[verifier::external_body]
fn escape_value(s: &str) -> (r: String)
    ensures
        r@ == shell_escaped(s@),
{
    shell_escape::unix::escape(std::borrow::Cow::from(s)).into_owned()
}

/// One rendered environment assignment: the key, `=`, and the escaped value.
pub open spec fn rendered_env(key: Seq<char>, val: Seq<char>) -> Seq<char> {
    key + "="@ + shell_escaped(val)
}

/// The pieces of the printed command line, in order: one assignment per
/// environment override, then the program name, then every argument.
pub open spec fn command_parts(cmd: CommandLine, program: Seq<char>) -> Seq<Seq<char>> {
    Seq::new(cmd.envs@.len(), |i: int| rendered_env(cmd.envs@[i].0@, cmd.envs@[i].1@))
        + seq![program]
        + Seq::new(cmd.args@.len(), |i: int| cmd.args@[i]@)
}

/// The pieces joined with single spaces.
pub open spec fn join_spaced(parts: Seq<Seq<char>>) -> Seq<char>
    decreases parts.len(),
{
    if parts.len() == 0 {
        Seq::<char>::empty()
    } else if parts.len() == 1 {
        parts[0]
    } else {
        parts[0] + " "@ + join_spaced(parts.drop_first())
    }
}

/// The full printed command line for an invocation.
pub open spec fn rendered_command(cmd: CommandLine, program: Seq<char>) -> Seq<char> {
    join_spaced(command_parts(cmd, program))
}

proof fn lemma_join_push(parts: Seq<Seq<char>>, x: Seq<char>)
    ensures
        parts.len() == 0 ==> join_spaced(parts.push(x)) == x,
        parts.len() > 0 ==> join_spaced(parts.push(x)) == join_spaced(parts) + " "@ + x,
    decreases parts.len(),
{
    if parts.len() == 0 {
        assert(parts.push(x)[0] == x);
    } else {
        assert(parts.push(x).drop_first() =~= parts.drop_first().push(x));
        lemma_join_push(parts.drop_first(), x);
        assert(parts.push(x)[0] == parts[0]);
    }
}

/// Render the command line that is printed before a build runs: the
/// environment assignments (values shell-escaped), the program name, and
/// the arguments, joined with single spaces.
pub fn render_command(cmd: &CommandLine, program: &str) -> (r: String)
    ensures
        r@ == rendered_command(*cmd, program@),
{
    let mut parts: Vec<String> = Vec::new();
    let mut i: usize = 0;
    while i < cmd.envs.len()
        invariant
            0 <= i <= cmd.envs@.len(),
            parts@.len() == i,
            forall|k: int|
                0 <= k < i ==> parts@[k]@ == rendered_env(cmd.envs@[k].0@, cmd.envs@[k].1@),
        decreases cmd.envs@.len() - i,
    {
        let kv = &cmd.envs[i];
        let mut p = kv.0.clone();
        p.append("=");
        let esc = escape_value(kv.1.as_str());
        p.append(esc.as_str());
        parts.push(p);
        i = i + 1;
    }
    parts.push(String::from_str(program));
    let mut j: usize = 0;
    while j < cmd.args.len()
        invariant
            0 <= j <= cmd.args@.len(),
            parts@.len() == cmd.envs@.len() + 1 + j,
            forall|k: int|
                0 <= k < cmd.envs@.len() ==> parts@[k]@ == rendered_env(
                    cmd.envs@[k].0@,
                    cmd.envs@[k].1@,
                ),
            parts@[cmd.envs@.len() as int]@ == program@,
            forall|k: int|
                0 <= k < j ==> parts@[cmd.envs@.len() + 1 + k]@ == cmd.args@[k]@,
        decreases cmd.args@.len() - j,
    {
        parts.push(cmd.args[j].clone());
        j = j + 1;
    }
    proof {
        assert(parts.deep_view() =~= command_parts(*cmd, program@));
    }
    let ghost spec_parts = command_parts(*cmd, program@);
    let n = parts.len();
    let mut out = String::new();
    let mut k: usize = 0;
    while k < n
        invariant
            0 <= k <= n,
            n == parts@.len(),
            parts.deep_view() == spec_parts,
            out@ == join_spaced(spec_parts.subrange(0, k as int)),
        decreases n - k,
    {
        if k > 0 {
            out.append(" ");
        }
        out.append(parts[k].as_str());
        proof {
            lemma_join_push(spec_parts.subrange(0, k as int), spec_parts[k as int]);
            assert(spec_parts.subrange(0, k + 1 as int) =~= spec_parts.subrange(
                0,
                k as int,
            ).push(spec_parts[k as int]));
        }
        k = k + 1;
    }
    proof {
        assert(spec_parts.subrange(0, spec_parts.len() as int) =~= spec_parts);
    }
    out
}

/// The view of an optional borrowed string.
pub open spec fn opt_str_view(o: Option<&str>) -> Option<Seq<char>> {
    match o {
        Some(s) => Some(s@),
        None => None,
    }
}

/// The argument list of one build invocation: `contract build
/// --manifest-path=<path>`, then `--profile=<profile>` and
/// `--out-dir=<dir>` where those are given.
pub open spec fn build_args(
    manifest_path: Seq<char>,
    profile: Option<Seq<char>>,
    out_dir: Option<Seq<char>>,
) -> Seq<Seq<char>> {
    seq!["contract"@, "build"@, "--manifest-path="@ + manifest_path] + (match profile {
        Some(p) => seq!["--profile="@ + p],
        None => Seq::<Seq<char>>::empty(),
    }) + (match out_dir {
        Some(d) => seq!["--out-dir="@ + d],
        None => Seq::<Seq<char>>::empty(),
    })
}

/// The environment overrides of one build invocation: a non-stripping
/// build empties the compiler-flags variable, which keeps the external
/// tool from injecting its own path-remap flag; a stripping build sets
/// nothing.
pub open spec fn build_envs(strip: Strip) -> Seq<(Seq<char>, Seq<char>)> {
    if strip == Strip::No {
        seq![("RUSTFLAGS"@, ""@)]
    } else {
        Seq::<(Seq<char>, Seq<char>)>::empty()
    }
}

/// Compose the invocation for one build of the contract at
/// `manifest_path`, under the given strip mode.
pub fn build_command(
    manifest_path: &str,
    profile: Option<&str>,
    out_dir: Option<&str>,
    strip: Strip,
) -> (cmd: CommandLine)
    ensures
        cmd.args.deep_view() == build_args(
            manifest_path@,
            opt_str_view(profile),
            opt_str_view(out_dir),
        ),
        cmd.envs.deep_view() == build_envs(strip),
{
    let mut args: Vec<String> = Vec::new();
    args.push(String::from_str("contract"));
    args.push(String::from_str("build"));
    let mp = String::from_str("--manifest-path=");
    args.push(mp.concat(manifest_path));
    match profile {
        Some(p) => {
            let pf = String::from_str("--profile=");
            args.push(pf.concat(p));
        },
        None => {},
    }
    match out_dir {
        Some(d) => {
            let od = String::from_str("--out-dir=");
            args.push(od.concat(d));
        },
        None => {},
    }
    let mut envs: Vec<(String, String)> = Vec::new();
    match strip {
        Strip::No => {
            envs.push((String::from_str("RUSTFLAGS"), String::new()));
        },
        Strip::Yes => {},
    }
    let cmd = CommandLine { envs, args };
    proof {
        reveal_strlit("");
        assert(""@ =~= Seq::<char>::empty());
        assert(cmd.args.deep_view() =~= build_args(
            manifest_path@,
            opt_str_view(profile),
            opt_str_view(out_dir),
        ));
        assert(cmd.envs.deep_view() =~= build_envs(strip));
    }
    cmd
}

/// The fatal-error text for a build whose child process failed, carrying
/// the command line that was printed for it.
pub fn build_failure_message(cmd_str: &str) -> (r: String)
    ensures
        r@ == "failed building with stellar: "@ + cmd_str@,
{
    let head = String::from_str("failed building with stellar: ");
    head.concat(cmd_str)
}

/// Law: the command line is composed of, in order, one `KEY=value`
/// assignment per environment override, then the program name, then every
/// argument, each in the position given and none left out.
pub proof fn lemma_command_parts_order(cmd: CommandLine, program: Seq<char>)
    ensures
        command_parts(cmd, program).len() == cmd.envs@.len() + 1 + cmd.args@.len(),
        forall|i: int|
            0 <= i < cmd.envs@.len() ==> command_parts(cmd, program)[i] == rendered_env(
                cmd.envs@[i].0@,
                cmd.envs@[i].1@,
            ),
        command_parts(cmd, program)[cmd.envs@.len() as int] == program,
        forall|j: int|
            0 <= j < cmd.args@.len() ==> command_parts(cmd, program)[cmd.envs@.len() + 1 + j]
                == cmd.args@[j]@,
{
}

/// Law: each piece of the command line occurs in the joined rendering as a
/// contiguous substring.
pub proof fn lemma_join_contains_part(parts: Seq<Seq<char>>, i: int)
    requires
        0 <= i < parts.len(),
    ensures
        contains_seq(join_spaced(parts), parts[i]),
    decreases parts.len(),
{
    let joined = join_spaced(parts);
    assert(" "@.len() == 1) by {
        reveal_strlit(" ");
    }
    if i == 0 {
        assert(joined.subrange(0, parts[0].len() as int) =~= parts[0]);
        assert(matches_at(joined, parts[0], 0));
    } else {
        let rest = join_spaced(parts.drop_first());
        lemma_join_contains_part(parts.drop_first(), i - 1);
        let k = choose|k: int| #[trigger] matches_at(rest, parts.drop_first()[i - 1], k);
        let needle = parts[i];
        let off = parts[0].len() + 1 + k;
        assert(parts.drop_first()[i - 1] == needle);
        assert forall|t: int| 0 <= t < needle.len() implies joined.subrange(
            off as int,
            off + needle.len() as int,
        )[t] == needle[t] by {
            assert(joined[off + t] == rest[k + t]);
            assert(rest.subrange(k, k + needle.len() as int)[t] == rest[k + t]);
        }
        assert(joined.subrange(off as int, off + needle.len() as int) =~= needle);
        assert(matches_at(joined, needle, off as int));
    }
}

/// Law: the rendered command line includes the program name, every
/// argument, and every environment assignment, each as a contiguous
/// substring.
pub proof fn lemma_rendered_includes_all(cmd: CommandLine, program: Seq<char>)
    ensures
        contains_seq(rendered_command(cmd, program), program),
        forall|j: int|
            0 <= j < cmd.args@.len() ==> contains_seq(
                rendered_command(cmd, program),
                cmd.args@[j]@,
            ),
        forall|i: int|
            0 <= i < cmd.envs@.len() ==> contains_seq(
                rendered_command(cmd, program),
                rendered_env(cmd.envs@[i].0@, cmd.envs@[i].1@),
            ),
{
    let parts = command_parts(cmd, program);
    lemma_command_parts_order(cmd, program);
    lemma_join_contains_part(parts, cmd.envs@.len() as int);
    assert forall|j: int| 0 <= j < cmd.args@.len() implies contains_seq(
        rendered_command(cmd, program),
        cmd.args@[j]@,
    ) by {
        lemma_join_contains_part(parts, cmd.envs@.len() + 1 + j);
    }
    assert forall|i: int| 0 <= i < cmd.envs@.len() implies contains_seq(
        rendered_command(cmd, program),
        rendered_env(cmd.envs@[i].0@, cmd.envs@[i].1@),
    ) by {
        lemma_join_contains_part(parts, i);
    }
}

} // verus!
