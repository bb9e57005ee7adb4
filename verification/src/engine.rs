//! The template composition engine: a line-oriented, placeholder-driven
//! substitution pass.  A placeholder is a name bracketed by `{{` and `}}`.
//! Lines without markers are copied verbatim; a line whose opening marker
//! has no closing marker is skipped; an unknown placeholder is passed
//! through unchanged.  The whole pass is specified as a pure function of
//! the template text and the substitution environment, so rendering the
//! same input twice yields byte-identical output.

use crate::policy::{Blacklist, Config, Graylist, Init, List, Whitelist};
use crate::template::{
    action_tpl_text, action_tpl_view, base_dns_text, base_dns_view, base_ip_text, base_ip_view,
    get_data_dns_text, get_data_dns_view, get_data_ip_text, get_data_ip_view, gray_tpl_text,
    gray_tpl_view, map_tpl_text, map_tpl_view,
};
use crate::text::{
    append_all, append_range, chars_eq_str, chars_of, dec_chars, find1, find1_from, find2,
    find2_from, lemma_find1_bounds, lemma_find2_bounds, lower_chars, spec_dec, spec_lower,
    spec_strip_spaces, spec_upper, str_eq, string_of, strip_spaces, subvec, upper_chars,
};
use vstd::prelude::*;

verus! {

/// One placeholder-name-to-replacement pair of a substitution environment.
pub struct Binding {
    pub key: Vec<char>,
    pub val: Vec<char>,
}

/// The mathematical view of an environment: name/replacement pairs in
/// lookup order.
pub open spec fn env_view(env: Seq<Binding>) -> Seq<(Seq<char>, Seq<char>)> {
    env.map_values(|b: Binding| (b.key@, b.val@))
}

/// First-match lookup of a placeholder name.
pub open spec fn env_lookup(env: Seq<(Seq<char>, Seq<char>)>, name: Seq<char>) -> Option<Seq<char>>
    decreases env.len(),
{
    if env.len() == 0 {
        None
    } else if env[0].0 == name {
        Some(env[0].1)
    } else {
        env_lookup(env.drop_first(), name)
    }
}

/// Substitution over one line, starting at position `i`: each known
/// placeholder is replaced, each unknown one is kept, and a line whose
/// opening marker never closes is dropped entirely (`None`).
pub open spec fn spec_subst_from(
    s: Seq<char>,
    env: Seq<(Seq<char>, Seq<char>)>,
    i: int,
) -> Option<Seq<char>>
    recommends
        0 <= i <= s.len(),
    decreases s.len() - i,
    via spec_subst_from_dec
{
    match find2_from(s, '{', '{', i) {
        None => Some(s.subrange(i, s.len() as int)),
        Some(o) => match find2_from(s, '}', '}', o + 2) {
            None => None,
            Some(c) => match spec_subst_from(s, env, c + 2) {
                None => None,
                Some(r) => match env_lookup(env, s.subrange(o + 2, c)) {
                    Some(v) => Some(s.subrange(i, o) + v + r),
                    None => Some(s.subrange(i, c + 2) + r),
                },
            },
        },
    }
}

#[via_fn]
proof fn spec_subst_from_dec(s: Seq<char>, env: Seq<(Seq<char>, Seq<char>)>, i: int) {
    match find2_from(s, '{', '{', i) {
        None => {},
        Some(o) => {
            lemma_find2_bounds(s, '{', '{', i, o);
            match find2_from(s, '}', '}', o + 2) {
                None => {},
                Some(c) => {
                    lemma_find2_bounds(s, '}', '}', o + 2, c);
                },
            }
        },
    }
}

/// Substitution over one whole line.
pub open spec fn spec_subst(s: Seq<char>, env: Seq<(Seq<char>, Seq<char>)>) -> Option<Seq<char>> {
    spec_subst_from(s, env, 0)
}

/// Index of the first binding for `name`, if any.
fn lookup_idx(env: &Vec<Binding>, name: &[char]) -> (r: Option<usize>)
    ensures
        match r {
            Some(i) => i < env@.len() && env_lookup(env_view(env@), name@) == Some(
                env@[i as int].val@,
            ),
            None => env_lookup(env_view(env@), name@) is None,
        },
{
    let mut i: usize = 0;
    proof {
        assert(env_view(env@).skip(0) =~= env_view(env@));
    }
    while i < env.len()
        invariant
            i <= env@.len(),
            env_lookup(env_view(env@), name@) == env_lookup(
                env_view(env@).skip(i as int),
                name@,
            ),
        decreases env@.len() - i,
    {
        proof {
            assert(env_view(env@).skip(i as int)[0] == (env@[i as int].key@, env@[i as int].val@));
            assert(env_view(env@).skip(i as int).drop_first() =~= env_view(env@).skip(i as int + 1));
        }
        if slice_eq(env[i].key.as_slice(), name) {
            return Some(i);
        }
        i = i + 1;
    }
    None
}

/// True when two character slices hold the same characters.
pub fn slice_eq(a: &[char], b: &[char]) -> (r: bool)
    ensures
        r == (a@ == b@),
{
    if a.len() != b.len() {
        assert(a@ != b@) by {
            assert(a@.len() != b@.len());
        }
        return false;
    }
    let mut i: usize = 0;
    while i < a.len()
        invariant
            i <= a@.len(),
            a@.len() == b@.len(),
            forall|j: int| 0 <= j < i ==> a@[j] == b@[j],
        decreases a@.len() - i,
    {
        if a[i] != b[i] {
            return false;
        }
        i = i + 1;
    }
    proof {
        assert(a@ =~= b@);
    }
    true
}

/// Runs the substitution pass over one line.
pub fn subst_line(line: &[char], env: &Vec<Binding>) -> (r: Option<Vec<char>>)
    ensures
        match r {
            Some(v) => spec_subst(line@, env_view(env@)) == Some(v@),
            None => spec_subst(line@, env_view(env@)) is None,
        },
{
    let ghost genv = env_view(env@);
    let line_len = line.len();
    let mut out: Vec<char> = Vec::new();
    let mut pos: usize = 0;
    loop
        invariant
            line_len == line@.len(),
            pos <= line@.len(),
            match spec_subst_from(line@, genv, pos as int) {
                None => spec_subst_from(line@, genv, 0) is None,
                Some(r) => spec_subst_from(line@, genv, 0) == Some(out@ + r),
            },
            genv == env_view(env@),
        decreases line@.len() - pos,
    {
        match find2(line, '{', '{', pos) {
            None => {
                let n = line.len();
                append_range(&mut out, line, pos, n);
                proof {
                    assert(spec_subst_from(line@, genv, pos as int) == Some(
                        line@.subrange(pos as int, line@.len() as int),
                    ));
                }
                return Some(out);
            },
            Some(o) => {
                match find2(line, '}', '}', o + 2) {
                    None => {
                        proof {
                            assert(spec_subst_from(line@, genv, pos as int) is None);
                        }
                        return None;
                    },
                    Some(c) => {
                        let name = subvec(line, o + 2, c);
                        let ghost old_out = out@;
                        let ghost old_pos = pos as int;
                        match lookup_idx(env, name.as_slice()) {
                            Some(bi) => {
                                append_range(&mut out, line, pos, o);
                                append_all(&mut out, env[bi].val.as_slice());
                                pos = c + 2;
                                proof {
                                    let v = env@[bi as int].val@;
                                    assert(out@ =~= old_out + (line@.subrange(old_pos, o as int)
                                        + v));
                                    match spec_subst_from(line@, genv, pos as int) {
                                        None => {
                                            assert(spec_subst_from(line@, genv, old_pos) is None);
                                        },
                                        Some(r) => {
                                            assert(spec_subst_from(line@, genv, old_pos) == Some(
                                                line@.subrange(old_pos, o as int) + v + r,
                                            ));
                                            assert(old_out + (line@.subrange(old_pos, o as int) + v)
                                                + r =~= old_out + (line@.subrange(old_pos, o as int)
                                                + v + r));
                                        },
                                    }
                                }
                            },
                            None => {
                                append_range(&mut out, line, pos, c + 2);
                                pos = c + 2;
                                proof {
                                    match spec_subst_from(line@, genv, pos as int) {
                                        None => {
                                            assert(spec_subst_from(line@, genv, old_pos) is None);
                                        },
                                        Some(r) => {
                                            assert(spec_subst_from(line@, genv, old_pos) == Some(
                                                line@.subrange(old_pos, c + 2) + r,
                                            ));
                                            assert(old_out + line@.subrange(old_pos, c + 2) + r
                                                =~= old_out + (line@.subrange(old_pos, c + 2) + r));
                                        },
                                    }
                                }
                            },
                        }
                    },
                }
            },
        }
    }
}

/// The lines of a text, split at every newline, starting at position `i`.
pub open spec fn spec_lines_from(s: Seq<char>, i: int) -> Seq<Seq<char>>
    recommends
        0 <= i <= s.len(),
    decreases s.len() - i,
    via spec_lines_from_dec
{
    if i < 0 || i >= s.len() {
        Seq::empty()
    } else {
        match find1_from(s, '\n', i) {
            None => seq![s.subrange(i, s.len() as int)],
            Some(k) => seq![s.subrange(i, k)] + spec_lines_from(s, k + 1),
        }
    }
}

#[via_fn]
proof fn spec_lines_from_dec(s: Seq<char>, i: int) {
    if !(i < 0 || i >= s.len()) {
        match find1_from(s, '\n', i) {
            None => {},
            Some(k) => {
                lemma_find1_bounds(s, '\n', i, k);
            },
        }
    }
}

/// The lines of a text, split at every newline.  A trailing newline yields
/// no extra empty line.
pub open spec fn spec_lines(s: Seq<char>) -> Seq<Seq<char>> {
    spec_lines_from(s, 0)
}

/// The view of a vector of lines.
pub open spec fn lines_view(ls: Seq<Vec<char>>) -> Seq<Seq<char>> {
    ls.map_values(|l: Vec<char>| l@)
}

/// Splits a text into lines.
pub fn split_lines(v: &[char]) -> (r: Vec<Vec<char>>)
    ensures
        lines_view(r@) == spec_lines(v@),
{
    let mut r: Vec<Vec<char>> = Vec::new();
    let mut i: usize = 0;
    let len = v.len();
    while i < len
        invariant
            i <= len,
            len == v@.len(),
            lines_view(r@) + spec_lines_from(v@, i as int) == spec_lines(v@),
        decreases len - i,
    {
        let ghost old_r = r@;
        let ghost old_i = i as int;
        match find1(v, '\n', i) {
            None => {
                r.push(subvec(v, i, len));
                i = len;
            },
            Some(k) => {
                r.push(subvec(v, i, k));
                i = k + 1;
            },
        }
        proof {
            assert(lines_view(r@) =~= lines_view(old_r) + seq![r@.last()@]);
            assert(lines_view(r@) + spec_lines_from(v@, i as int) =~= lines_view(old_r) + (seq![
                r@.last()@,
            ] + spec_lines_from(v@, i as int)));
            assert(seq![r@.last()@] + spec_lines_from(v@, i as int) == spec_lines_from(
                v@,
                old_i,
            ));
        }
    }
    proof {
        assert(lines_view(r@) =~= spec_lines(v@));
    }
    r
}

/// What one line contributes to the rendered output: its substitution plus
/// a newline, or nothing when the line is dropped.
pub open spec fn spec_line_out(l: Seq<char>, env: Seq<(Seq<char>, Seq<char>)>) -> Seq<char> {
    match spec_subst(l, env) {
        Some(s) => s.push('\n'),
        None => Seq::empty(),
    }
}

/// The rendering of a sequence of lines under one environment.
pub open spec fn spec_render_lines(
    ls: Seq<Seq<char>>,
    env: Seq<(Seq<char>, Seq<char>)>,
) -> Seq<char>
    decreases ls.len(),
{
    if ls.len() == 0 {
        Seq::empty()
    } else {
        spec_line_out(ls[0], env) + spec_render_lines(ls.drop_first(), env)
    }
}

/// The rendering of a whole template under one environment.
pub open spec fn spec_render(tpl: Seq<char>, env: Seq<(Seq<char>, Seq<char>)>) -> Seq<char> {
    spec_render_lines(spec_lines(tpl), env)
}

/// Renders a template: every line is substituted under the environment.
pub fn render_template(tpl: &[char], env: &Vec<Binding>) -> (r: Vec<char>)
    ensures
        r@ == spec_render(tpl@, env_view(env@)),
{
    let ghost genv = env_view(env@);
    let lines = split_lines(tpl);
    let ghost lv = lines_view(lines@);
    let mut out: Vec<char> = Vec::new();
    let mut i: usize = 0;
    proof {
        assert(lv.skip(0) =~= lv);
        assert(Seq::<char>::empty() + spec_render_lines(lv, genv) =~= spec_render_lines(lv, genv));
    }
    while i < lines.len()
        invariant
            i <= lines@.len(),
            lv == lines_view(lines@),
            genv == env_view(env@),
            lv == spec_lines(tpl@),
            out@ + spec_render_lines(lv.skip(i as int), genv) == spec_render(tpl@, genv),
        decreases lines@.len() - i,
    {
        let ghost old_out = out@;
        proof {
            assert(lv.skip(i as int)[0] == lv[i as int]);
            assert(lv.skip(i as int).drop_first() =~= lv.skip(i as int + 1));
            assert(spec_render_lines(lv.skip(i as int), genv) == spec_line_out(lv[i as int], genv)
                + spec_render_lines(lv.skip(i as int + 1), genv));
        }
        match subst_line(lines[i].as_slice(), env) {
            Some(s) => {
                append_all(&mut out, s.as_slice());
                out.push('\n');
                proof {
                    assert(out@ =~= old_out + spec_line_out(lv[i as int], genv));
                    assert(out@ + spec_render_lines(lv.skip(i as int + 1), genv) =~= old_out + (
                    spec_line_out(lv[i as int], genv) + spec_render_lines(
                        lv.skip(i as int + 1),
                        genv,
                    )));
                }
            },
            None => {
                proof {
                    assert(spec_line_out(lv[i as int], genv) =~= Seq::<char>::empty());
                    assert(out@ + spec_render_lines(lv.skip(i as int + 1), genv) =~= old_out + (
                    spec_line_out(lv[i as int], genv) + spec_render_lines(
                        lv.skip(i as int + 1),
                        genv,
                    )));
                }
            },
        }
        i = i + 1;
    }
    proof {
        assert(lv.skip(i as int) =~= Seq::<Seq<char>>::empty());
        assert(out@ =~= out@ + spec_render_lines(lv.skip(i as int), genv));
    }
    out
}

/// A composition error: the policy asks for something no handler exists
/// for.
#[derive(Debug, Clone, Copy, PartialEq, Eq, Structural)]
pub enum EngineError {
    UnknownProgramType,
}

impl EngineError {
    /// The human-readable description of the error.
    pub fn message(&self) -> (r: &'static str)
        ensures
            r@ == "Unknown program type"@,
    {
        "Unknown program type"
    }
}

/// The filter action keyword a list action resolves to: `allow` passes,
/// everything else — `deny` included — drops (the fail-closed rule).
pub open spec fn spec_action_token(action: Seq<char>) -> Seq<char> {
    if action == "allow"@ {
        "XDP_PASS"@
    } else {
        "XDP_DROP"@
    }
}

/// The filter action keyword the default action resolves to: `PASS` and
/// `DROP` (in any spacing or ASCII case) are honoured, everything else
/// falls back to passing (the fail-open rule).
pub open spec fn spec_default_action_token(action: Seq<char>) -> Seq<char> {
    let cleaned = spec_upper(spec_strip_spaces(action));
    if cleaned == "PASS"@ {
        "XDP_PASS"@
    } else if cleaned == "DROP"@ {
        "XDP_DROP"@
    } else {
        "XDP_PASS"@
    }
}

/// The program name as emitted: spaces are stripped so the name is a
/// single identifier.
pub open spec fn spec_clean_name(i: Init) -> Seq<char> {
    spec_strip_spaces(i.spec_name())
}

/// The resolved program type keyword.
pub open spec fn spec_prog_type(i: Init) -> Seq<char> {
    match i.prog_type {
        Some(t) => t@,
        None => "ip"@,
    }
}

/// The substitution environment of the map-declaration fragment.
pub open spec fn spec_map_env(name: Seq<char>, max: u32) -> Seq<(Seq<char>, Seq<char>)> {
    seq![("max"@, spec_dec(max as nat)), ("name"@, name)]
}

/// The map declaration emitted for an enabled list.
pub open spec fn spec_map_fragment(name: Seq<char>, max: u32) -> Seq<char> {
    spec_render(map_tpl_view(), spec_map_env(name, max))
}

/// The substitution environment of the pass/drop action fragment.
pub open spec fn spec_wb_env(list: Seq<char>, action: Seq<char>) -> Seq<(Seq<char>, Seq<char>)> {
    seq![("action"@, spec_action_token(action)), ("list"@, list)]
}

/// The pass/drop action fragment emitted for an enabled plain list: the
/// map lookup preamble of the program type, then the action body.
pub open spec fn spec_wb_action_fragment(dns: bool, list: Seq<char>, action: Seq<char>) -> Seq<
    char,
> {
    spec_render(
        (if dns {
            get_data_dns_view()
        } else {
            get_data_ip_view()
        }) + action_tpl_view(),
        spec_wb_env(list, action),
    )
}

/// The substitution environment of the rate-limiting action fragment.
pub open spec fn spec_gray_env(list: Seq<char>, freq: u32, fast: u32) -> Seq<
    (Seq<char>, Seq<char>),
> {
    seq![
        ("frequency"@, spec_dec(freq as nat)),
        ("fast_packet_count"@, spec_dec(fast as nat)),
        ("list"@, list),
    ]
}

/// The rate-limiting action fragment emitted when the list's action is
/// neither `allow` nor `deny`: the embedded reputation state machine.
pub open spec fn spec_gray_fragment(list: Seq<char>, freq: u32, fast: u32) -> Seq<char> {
    spec_render(get_data_ip_view() + gray_tpl_view(), spec_gray_env(list, freq, fast))
}

/// An environment of one binding.
fn env1(key: &str, val: Vec<char>) -> (r: Vec<Binding>)
    ensures
        env_view(r@) == seq![(key@, val@)],
{
    let ghost v = val@;
    let mut r: Vec<Binding> = Vec::new();
    r.push(Binding { key: chars_of(key), val });
    proof {
        assert(env_view(r@) =~= seq![(key@, v)]);
    }
    r
}

/// An environment of two bindings, looked up in order.
fn env2(key0: &str, val0: Vec<char>, key1: &str, val1: Vec<char>) -> (r: Vec<Binding>)
    ensures
        env_view(r@) == seq![(key0@, val0@), (key1@, val1@)],
{
    let ghost v0 = val0@;
    let ghost v1 = val1@;
    let mut r: Vec<Binding> = Vec::new();
    r.push(Binding { key: chars_of(key0), val: val0 });
    r.push(Binding { key: chars_of(key1), val: val1 });
    proof {
        assert(env_view(r@) =~= seq![(key0@, v0), (key1@, v1)]);
    }
    r
}

/// An environment of three bindings, looked up in order.
fn env3(
    key0: &str,
    val0: Vec<char>,
    key1: &str,
    val1: Vec<char>,
    key2: &str,
    val2: Vec<char>,
) -> (r: Vec<Binding>)
    ensures
        env_view(r@) == seq![(key0@, val0@), (key1@, val1@), (key2@, val2@)],
{
    let ghost v0 = val0@;
    let ghost v1 = val1@;
    let ghost v2 = val2@;
    let mut r: Vec<Binding> = Vec::new();
    r.push(Binding { key: chars_of(key0), val: val0 });
    r.push(Binding { key: chars_of(key1), val: val1 });
    r.push(Binding { key: chars_of(key2), val: val2 });
    proof {
        assert(env_view(r@) =~= seq![(key0@, v0), (key1@, v1), (key2@, v2)]);
    }
    r
}

/// The action keyword for a list action (fail-closed).
pub fn action_token(action: &str) -> (r: &'static str)
    ensures
        r@ == spec_action_token(action@),
{
    if str_eq(action, "allow") {
        "XDP_PASS"
    } else {
        "XDP_DROP"
    }
}

/// Builds the map declaration for one list.
pub fn build_map_fragment(name: &str, max: u32) -> (r: Vec<char>)
    ensures
        r@ == spec_map_fragment(name@, max),
{
    let env = env2("max", dec_chars(max as u64), "name", chars_of(name));
    let tpl = chars_of(map_tpl_text());
    render_template(tpl.as_slice(), &env)
}

/// Builds the pass/drop action fragment for one plain list.
pub fn build_wb_action_fragment(dns: bool, list: &str, action: &str) -> (r: Vec<char>)
    ensures
        r@ == spec_wb_action_fragment(dns, list@, action@),
{
    let mut tpl = if dns {
        chars_of(get_data_dns_text())
    } else {
        chars_of(get_data_ip_text())
    };
    let tail = chars_of(action_tpl_text());
    append_all(&mut tpl, tail.as_slice());
    let env = env2("action", chars_of(action_token(action)), "list", chars_of(list));
    render_template(tpl.as_slice(), &env)
}

/// Builds the rate-limiting action fragment.
pub fn build_gray_fragment(list: &str, freq: u32, fast: u32) -> (r: Vec<char>)
    ensures
        r@ == spec_gray_fragment(list@, freq, fast),
{
    let mut tpl = chars_of(get_data_ip_text());
    let tail = chars_of(gray_tpl_text());
    append_all(&mut tpl, tail.as_slice());
    let env = env3(
        "frequency",
        dec_chars(freq as u64),
        "fast_packet_count",
        dec_chars(fast as u64),
        "list",
        chars_of(list),
    );
    render_template(tpl.as_slice(), &env)
}

/// What one base-template line expands to under a policy: scalar
/// placeholders are substituted, a disabled list's placeholder line
/// vanishes, an enabled list's placeholder is replaced by its fragment,
/// an unknown placeholder line passes through, and a line whose opening
/// marker never closes is skipped.
pub open spec fn spec_expand_line(i: Init, dns: bool, line: Seq<char>) -> Seq<char> {
    match find2_from(line, '{', '{', 0) {
        None => line.push('\n'),
        Some(o) => match find2_from(line, '}', '}', o + 2) {
            None => Seq::empty(),
            Some(c) => {
                let ph = line.subrange(o + 2, c);
                if ph == "name"@ {
                    spec_line_out(line, seq![("name"@, spec_clean_name(i))])
                } else if ph == "default_action"@ {
                    spec_line_out(
                        line,
                        seq![("default_action"@, spec_default_action_token(i.spec_xdp_action()))],
                    )
                } else if ph == "whitelist_map"@ {
                    match i.whitelist {
                        Some(w) => if w.spec_enabled() {
                            spec_line_out(
                                line,
                                seq![
                                    ("whitelist_map"@, spec_map_fragment("whitelist"@, w.spec_max())),
                                ],
                            )
                        } else {
                            Seq::empty()
                        },
                        None => Seq::empty(),
                    }
                } else if ph == "blacklist_map"@ {
                    match i.blacklist {
                        Some(b) => if b.spec_enabled() {
                            spec_line_out(
                                line,
                                seq![
                                    ("blacklist_map"@, spec_map_fragment("blacklist"@, b.spec_max())),
                                ],
                            )
                        } else {
                            Seq::empty()
                        },
                        None => Seq::empty(),
                    }
                } else if ph == "graylist_map"@ {
                    match i.graylist {
                        Some(g) => if g.spec_enabled() {
                            spec_line_out(
                                line,
                                seq![("graylist_map"@, spec_map_fragment("graylist"@, g.spec_max()))],
                            )
                        } else {
                            Seq::empty()
                        },
                        None => Seq::empty(),
                    }
                } else if ph == "whitelist_action"@ {
                    match i.whitelist {
                        Some(w) => if w.spec_enabled() {
                            spec_line_out(
                                line,
                                seq![
                                    (
                                        "whitelist_action"@,
                                        spec_wb_action_fragment(dns, "whitelist"@, w.spec_action()),
                                    ),
                                ],
                            )
                        } else {
                            Seq::empty()
                        },
                        None => Seq::empty(),
                    }
                } else if ph == "blacklist_action"@ {
                    match i.blacklist {
                        Some(b) => if b.spec_enabled() {
                            spec_line_out(
                                line,
                                seq![
                                    (
                                        "blacklist_action"@,
                                        spec_wb_action_fragment(dns, "blacklist"@, b.spec_action()),
                                    ),
                                ],
                            )
                        } else {
                            Seq::empty()
                        },
                        None => Seq::empty(),
                    }
                } else if ph == "graylist_action"@ {
                    match i.graylist {
                        Some(g) => if g.spec_enabled() {
                            if g.spec_action() == "allow"@ || g.spec_action() == "deny"@ {
                                spec_line_out(
                                    line,
                                    seq![
                                        (
                                            "graylist_action"@,
                                            spec_wb_action_fragment(
                                                false,
                                                "graylist"@,
                                                g.spec_action(),
                                            ),
                                        ),
                                    ],
                                )
                            } else {
                                spec_line_out(
                                    line,
                                    seq![
                                        (
                                            "graylist_action"@,
                                            spec_gray_fragment(
                                                "graylist"@,
                                                g.spec_frequency(),
                                                g.spec_fast_packets(),
                                            ),
                                        ),
                                    ],
                                )
                            }
                        } else {
                            Seq::empty()
                        },
                        None => Seq::empty(),
                    }
                } else {
                    line.push('\n')
                }
            },
        },
    }
}

/// The default-action keyword, fail-open.
pub fn default_action_token(action: &str) -> (r: &'static str)
    ensures
        r@ == spec_default_action_token(action@),
{
    let stripped = strip_spaces(chars_of(action).as_slice());
    let cleaned = upper_chars(stripped.as_slice());
    if chars_eq_str(cleaned.as_slice(), "PASS") {
        "XDP_PASS"
    } else if chars_eq_str(cleaned.as_slice(), "DROP") {
        "XDP_DROP"
    } else {
        "XDP_PASS"
    }
}

/// Substitutes one line and appends the line break, or yields nothing for
/// a dropped line.
fn subst_with(line: &[char], env: &Vec<Binding>) -> (r: Vec<char>)
    ensures
        r@ == spec_line_out(line@, env_view(env@)),
{
    match subst_line(line, env) {
        Some(s) => {
            let mut s = s;
            s.push('\n');
            s
        },
        None => Vec::new(),
    }
}

/// Expands one line of a base template under a policy.
pub fn expand_line(init: &Init, dns: bool, line: &[char]) -> (r: Vec<char>)
    ensures
        r@ == spec_expand_line(*init, dns, line@),
{
    let n = line.len();
    match find2(line, '{', '{', 0) {
        None => {
            let mut out = subvec(line, 0, n);
            out.push('\n');
            proof {
                assert(line@.subrange(0, line@.len() as int) =~= line@);
            }
            out
        },
        Some(o) => {
            match find2(line, '}', '}', o + 2) {
                None => Vec::new(),
                Some(c) => {
                    let ph = subvec(line, o + 2, c);
                    if chars_eq_str(ph.as_slice(), "name") {
                        let name_str = match &init.name {
                            Some(nm) => nm.as_str(),
                            None => "ExampleProgram",
                        };
                        let cleaned = strip_spaces(chars_of(name_str).as_slice());
                        let env = env1("name", cleaned);
                        subst_with(line, &env)
                    } else if chars_eq_str(ph.as_slice(), "default_action") {
                        let act = match &init.xdp_action {
                            Some(a) => a.as_str(),
                            None => "PASS",
                        };
                        let env = env1("default_action", chars_of(default_action_token(act)));
                        subst_with(line, &env)
                    } else if chars_eq_str(ph.as_slice(), "whitelist_map") {
                        match &init.whitelist {
                            Some(w) => {
                                if w.is_enabled() {
                                    let env = env1(
                                        "whitelist_map",
                                        build_map_fragment("whitelist", w.get_max()),
                                    );
                                    subst_with(line, &env)
                                } else {
                                    Vec::new()
                                }
                            },
                            None => Vec::new(),
                        }
                    } else if chars_eq_str(ph.as_slice(), "blacklist_map") {
                        match &init.blacklist {
                            Some(b) => {
                                if b.is_enabled() {
                                    let env = env1(
                                        "blacklist_map",
                                        build_map_fragment("blacklist", b.get_max()),
                                    );
                                    subst_with(line, &env)
                                } else {
                                    Vec::new()
                                }
                            },
                            None => Vec::new(),
                        }
                    } else if chars_eq_str(ph.as_slice(), "graylist_map") {
                        match &init.graylist {
                            Some(g) => {
                                if g.is_enabled() {
                                    let env = env1(
                                        "graylist_map",
                                        build_map_fragment("graylist", g.get_max()),
                                    );
                                    subst_with(line, &env)
                                } else {
                                    Vec::new()
                                }
                            },
                            None => Vec::new(),
                        }
                    } else if chars_eq_str(ph.as_slice(), "whitelist_action") {
                        match &init.whitelist {
                            Some(w) => {
                                if w.is_enabled() {
                                    let env = env1(
                                        "whitelist_action",
                                        build_wb_action_fragment(dns, "whitelist", w.get_action()),
                                    );
                                    subst_with(line, &env)
                                } else {
                                    Vec::new()
                                }
                            },
                            None => Vec::new(),
                        }
                    } else if chars_eq_str(ph.as_slice(), "blacklist_action") {
                        match &init.blacklist {
                            Some(b) => {
                                if b.is_enabled() {
                                    let env = env1(
                                        "blacklist_action",
                                        build_wb_action_fragment(dns, "blacklist", b.get_action()),
                                    );
                                    subst_with(line, &env)
                                } else {
                                    Vec::new()
                                }
                            },
                            None => Vec::new(),
                        }
                    } else if chars_eq_str(ph.as_slice(), "graylist_action") {
                        match &init.graylist {
                            Some(g) => {
                                if g.is_enabled() {
                                    let act = g.get_action();
                                    if str_eq(act, "allow") || str_eq(act, "deny") {
                                        let env = env1(
                                            "graylist_action",
                                            build_wb_action_fragment(false, "graylist", act),
                                        );
                                        subst_with(line, &env)
                                    } else {
                                        let env = env1(
                                            "graylist_action",
                                            build_gray_fragment(
                                                "graylist",
                                                g.frequency_or_default(),
                                                g.fast_packets_or_default(),
                                            ),
                                        );
                                        subst_with(line, &env)
                                    }
                                } else {
                                    Vec::new()
                                }
                            },
                            None => Vec::new(),
                        }
                    } else {
                        let mut out = subvec(line, 0, n);
                        out.push('\n');
                        proof {
                            assert(line@.subrange(0, line@.len() as int) =~= line@);
                        }
                        out
                    }
                },
            }
        },
    }
}

/// The expansion of a sequence of base-template lines.
pub open spec fn spec_expand_lines(i: Init, dns: bool, ls: Seq<Seq<char>>) -> Seq<char>
    decreases ls.len(),
{
    if ls.len() == 0 {
        Seq::empty()
    } else {
        spec_expand_line(i, dns, ls[0]) + spec_expand_lines(i, dns, ls.drop_first())
    }
}

/// The expansion of a whole base template under a policy.
pub open spec fn spec_expand(i: Init, dns: bool, tpl: Seq<char>) -> Seq<char> {
    spec_expand_lines(i, dns, spec_lines(tpl))
}

/// The source text generated for a policy whose program type is valid.
pub open spec fn spec_generated(c: Config) -> Seq<char>
    recommends
        c.init is Some,
{
    let i = c.init->Some_0;
    if spec_prog_type(i) == "dns"@ {
        spec_expand(i, true, base_dns_view())
    } else {
        spec_expand(i, false, base_ip_view())
    }
}

/// Expands a whole base template line by line.
pub fn expand(init: &Init, dns: bool, tpl: &str) -> (r: String)
    ensures
        r@ == spec_expand(*init, dns, tpl@),
{
    let tchars = chars_of(tpl);
    let lines = split_lines(tchars.as_slice());
    let ghost lv = lines_view(lines@);
    let mut out: Vec<char> = Vec::new();
    let mut i: usize = 0;
    proof {
        assert(lv.skip(0) =~= lv);
        assert(Seq::<char>::empty() + spec_expand_lines(*init, dns, lv) =~= spec_expand_lines(
            *init,
            dns,
            lv,
        ));
    }
    while i < lines.len()
        invariant
            i <= lines@.len(),
            lv == lines_view(lines@),
            lv == spec_lines(tpl@),
            out@ + spec_expand_lines(*init, dns, lv.skip(i as int)) == spec_expand(
                *init,
                dns,
                tpl@,
            ),
        decreases lines@.len() - i,
    {
        let ghost old_out = out@;
        proof {
            assert(lv.skip(i as int)[0] == lv[i as int]);
            assert(lv.skip(i as int).drop_first() =~= lv.skip(i as int + 1));
        }
        let piece = expand_line(init, dns, lines[i].as_slice());
        append_all(&mut out, piece.as_slice());
        proof {
            assert(out@ + spec_expand_lines(*init, dns, lv.skip(i as int + 1)) =~= old_out + (
            spec_expand_line(*init, dns, lv[i as int]) + spec_expand_lines(
                *init,
                dns,
                lv.skip(i as int + 1),
            )));
        }
        i = i + 1;
    }
    proof {
        assert(lv.skip(i as int) =~= Seq::<Seq<char>>::empty());
        assert(out@ =~= out@ + spec_expand_lines(*init, dns, lv.skip(i as int)));
    }
    string_of(out.as_slice())
}

/// Composes the complete filter-program source for a policy.  The program
/// type selects the base template; a type that is neither `ip` nor `dns`
/// is a hard composition error and nothing is emitted.
pub fn generate(config: &Config) -> (r: Result<String, EngineError>)
    requires
        config.init is Some,
    ensures
        (r is Ok) == (spec_prog_type(config.init->Some_0) == "ip"@ || spec_prog_type(
            config.init->Some_0,
        ) == "dns"@),
        r is Ok ==> r->Ok_0@ == spec_generated(*config),
        r is Err ==> r->Err_0 == EngineError::UnknownProgramType,
{
    proof {
        reveal_strlit("ip");
        reveal_strlit("dns");
        assert("ip"@.len() == 2);
        assert("dns"@.len() == 3);
    }
    let init = match &config.init {
        Some(i) => i,
        None => {
            return unreached();
        },
    };
    let pt: &str = match &init.prog_type {
        Some(t) => t.as_str(),
        None => "ip",
    };
    if str_eq(pt, "ip") {
        Ok(expand(init, false, base_ip_text()))
    } else if str_eq(pt, "dns") {
        Ok(expand(init, true, base_dns_text()))
    } else {
        Err(EngineError::UnknownProgramType)
    }
}

/// Fail-closed rule for list actions: `allow` resolves to the pass
/// keyword; `deny` and every unrecognized action resolve to the drop
/// keyword.
pub proof fn lemma_action_fail_closed(action: Seq<char>)
    ensures
        action == "allow"@ ==> spec_action_token(action) == "XDP_PASS"@,
        action != "allow"@ ==> spec_action_token(action) == "XDP_DROP"@,
{
}

/// Fail-open rule for the default action: `PASS` and `DROP` (after space
/// stripping and case folding) are honoured, and every unrecognized value
/// falls back to the pass keyword — the opposite default of the per-list
/// rule above.
pub proof fn lemma_default_action_fail_open(action: Seq<char>)
    ensures
        spec_upper(spec_strip_spaces(action)) == "PASS"@ ==> spec_default_action_token(action)
            == "XDP_PASS"@,
        spec_upper(spec_strip_spaces(action)) == "DROP"@ ==> spec_default_action_token(action)
            == "XDP_DROP"@,
        spec_upper(spec_strip_spaces(action)) != "PASS"@ && spec_upper(spec_strip_spaces(action))
            != "DROP"@ ==> spec_default_action_token(action) == "XDP_PASS"@,
{
    reveal_strlit("PASS");
    reveal_strlit("DROP");
    assert("PASS"@ != "DROP"@) by {
        assert("PASS"@[0] == 'P');
        assert("DROP"@[0] == 'D');
    }
}

/// A disabled list contributes nothing to the generated source: every
/// base-template line holding one of that list's placeholders is dropped
/// whole, so no declaration or action fragment referencing the list is
/// emitted.
pub proof fn lemma_disabled_list_no_fragment(i: Init, dns: bool, line: Seq<char>, o: int, c: int)
    requires
        find2_from(line, '{', '{', 0) == Some(o),
        find2_from(line, '}', '}', o + 2) == Some(c),
    ensures
        (line.subrange(o + 2, c) == "whitelist_map"@ || line.subrange(o + 2, c)
            == "whitelist_action"@) && (match i.whitelist {
            Some(w) => !w.spec_enabled(),
            None => true,
        }) ==> spec_expand_line(i, dns, line) == Seq::<char>::empty(),
        (line.subrange(o + 2, c) == "blacklist_map"@ || line.subrange(o + 2, c)
            == "blacklist_action"@) && (match i.blacklist {
            Some(b) => !b.spec_enabled(),
            None => true,
        }) ==> spec_expand_line(i, dns, line) == Seq::<char>::empty(),
        (line.subrange(o + 2, c) == "graylist_map"@ || line.subrange(o + 2, c)
            == "graylist_action"@) && (match i.graylist {
            Some(g) => !g.spec_enabled(),
            None => true,
        }) ==> spec_expand_line(i, dns, line) == Seq::<char>::empty(),
{
    reveal_strlit("name");
    reveal_strlit("default_action");
    reveal_strlit("whitelist_map");
    reveal_strlit("blacklist_map");
    reveal_strlit("graylist_map");
    reveal_strlit("whitelist_action");
    reveal_strlit("blacklist_action");
    reveal_strlit("graylist_action");
    assert("name"@.len() == 4);
    assert("default_action"@.len() == 14);
    assert("whitelist_map"@.len() == 13);
    assert("blacklist_map"@.len() == 13);
    assert("graylist_map"@.len() == 12);
    assert("whitelist_action"@.len() == 16);
    assert("blacklist_action"@.len() == 16);
    assert("graylist_action"@.len() == 15);
    assert("whitelist_map"@ != "blacklist_map"@) by {
        assert("whitelist_map"@[0] == 'w');
        assert("blacklist_map"@[0] == 'b');
    }
    assert("whitelist_action"@ != "blacklist_action"@) by {
        assert("whitelist_action"@[0] == 'w');
        assert("blacklist_action"@[0] == 'b');
    }
}

/// Whether a list configuration is absent or switched off.
pub open spec fn spec_wl_off(l: Option<Whitelist>) -> bool {
    match l {
        Some(w) => !w.spec_enabled(),
        None => true,
    }
}

/// Whether a list configuration is absent or switched off.
pub open spec fn spec_bl_off(l: Option<Blacklist>) -> bool {
    match l {
        Some(b) => !b.spec_enabled(),
        None => true,
    }
}

/// Whether a list configuration is absent or switched off.
pub open spec fn spec_gl_off(l: Option<Graylist>) -> bool {
    match l {
        Some(g) => !g.spec_enabled(),
        None => true,
    }
}

/// Two policies that differ only in the settings of disabled lists expand
/// every base-template line identically.
pub proof fn lemma_disabled_list_settings_immaterial(
    i1: Init,
    i2: Init,
    dns: bool,
    line: Seq<char>,
)
    requires
        i1.name == i2.name,
        i1.xdp_action == i2.xdp_action,
        i1.whitelist == i2.whitelist || (spec_wl_off(i1.whitelist) && spec_wl_off(i2.whitelist)),
        i1.blacklist == i2.blacklist || (spec_bl_off(i1.blacklist) && spec_bl_off(i2.blacklist)),
        i1.graylist == i2.graylist || (spec_gl_off(i1.graylist) && spec_gl_off(i2.graylist)),
    ensures
        spec_expand_line(i1, dns, line) == spec_expand_line(i2, dns, line),
{
}

proof fn lemma_disabled_list_settings_immaterial_lines(
    i1: Init,
    i2: Init,
    dns: bool,
    ls: Seq<Seq<char>>,
)
    requires
        i1.name == i2.name,
        i1.xdp_action == i2.xdp_action,
        i1.whitelist == i2.whitelist || (spec_wl_off(i1.whitelist) && spec_wl_off(i2.whitelist)),
        i1.blacklist == i2.blacklist || (spec_bl_off(i1.blacklist) && spec_bl_off(i2.blacklist)),
        i1.graylist == i2.graylist || (spec_gl_off(i1.graylist) && spec_gl_off(i2.graylist)),
    ensures
        spec_expand_lines(i1, dns, ls) == spec_expand_lines(i2, dns, ls),
    decreases ls.len(),
{
    if ls.len() > 0 {
        lemma_disabled_list_settings_immaterial(i1, i2, dns, ls[0]);
        lemma_disabled_list_settings_immaterial_lines(i1, i2, dns, ls.drop_first());
    }
}

/// A disabled list leaves no trace: two policies that differ only in the
/// settings of disabled lists — and in their targets, which generation
/// never reads — compose byte-identical source.
pub proof fn lemma_disabled_list_leaves_no_trace(c1: Config, c2: Config)
    requires
        c1.init is Some,
        c2.init is Some,
        ({
            let i1 = c1.init->Some_0;
            let i2 = c2.init->Some_0;
            i1.name == i2.name && i1.prog_type == i2.prog_type && i1.xdp_action == i2.xdp_action
                && (i1.whitelist == i2.whitelist || (spec_wl_off(i1.whitelist) && spec_wl_off(
                i2.whitelist,
            ))) && (i1.blacklist == i2.blacklist || (spec_bl_off(i1.blacklist) && spec_bl_off(
                i2.blacklist,
            ))) && (i1.graylist == i2.graylist || (spec_gl_off(i1.graylist) && spec_gl_off(
                i2.graylist,
            )))
        }),
    ensures
        spec_generated(c1) == spec_generated(c2),
{
    let i1 = c1.init->Some_0;
    let i2 = c2.init->Some_0;
    if spec_prog_type(i1) == "dns"@ {
        lemma_disabled_list_settings_immaterial_lines(i1, i2, true, spec_lines(base_dns_view()));
    } else {
        lemma_disabled_list_settings_immaterial_lines(i1, i2, false, spec_lines(base_ip_view()));
    }
}

/// Composing the same policy twice yields byte-identical source text: the
/// generated output is a pure function of the policy, so two runs agree.
pub proof fn lemma_generate_deterministic(c: Config, first: Seq<char>, second: Seq<char>)
    requires
        c.init is Some,
        first == spec_generated(c),
        second == spec_generated(c),
    ensures
        first == second,
{
}

/// Splices a replacement over the placeholder span `[start, end + 2)` of a
/// line.
fn splice(line: &[char], start: usize, end: usize, mid: &[char]) -> (r: String)
    requires
        start + 2 <= end,
        end + 2 <= line@.len(),
    ensures
        r@ == line@.subrange(0, start as int) + mid@ + line@.subrange(
            end + 2,
            line@.len() as int,
        ),
{
    let mut out = subvec(line, 0, start);
    append_all(&mut out, mid);
    let n = line.len();
    append_range(&mut out, line, end + 2, n);
    string_of(out.as_slice())
}

/// Replaces the placeholder span of a line with the policy's program name,
/// spaces stripped.
pub fn replace_name(config: &Config, start: usize, end: usize, line: &str) -> (r: String)
    requires
        config.init is Some,
        start + 2 <= end,
        end + 2 <= line@.len(),
    ensures
        r@ == line@.subrange(0, start as int) + spec_clean_name(config.init->Some_0)
            + line@.subrange(end + 2, line@.len() as int),
{
    let init = match &config.init {
        Some(i) => i,
        None => {
            return unreached();
        },
    };
    let name_str = match &init.name {
        Some(nm) => nm.as_str(),
        None => "ExampleProgram",
    };
    let cleaned = strip_spaces(chars_of(name_str).as_slice());
    let lchars = chars_of(line);
    splice(lchars.as_slice(), start, end, cleaned.as_slice())
}

/// Replaces the placeholder span of a line with the list's map
/// declaration.
pub fn replace_map<L: List>(config: &L, start: usize, end: usize, line: &str, name: &str) -> (r:
    String)
    requires
        start + 2 <= end,
        end + 2 <= line@.len(),
    ensures
        r@ == line@.subrange(0, start as int) + spec_map_fragment(name@, config.spec_max())
            + line@.subrange(end + 2, line@.len() as int),
{
    let frag = build_map_fragment(name, config.get_max());
    let lchars = chars_of(line);
    splice(lchars.as_slice(), start, end, frag.as_slice())
}

/// Replaces the placeholder span of a line with the pass/drop action
/// fragment of a plain list.
pub fn replace_wb_action<L: List>(
    prog_type: &str,
    config: &L,
    start: usize,
    end: usize,
    line: &str,
    list: &str,
) -> (r: String)
    requires
        spec_lower(prog_type@) == "ip"@ || spec_lower(prog_type@) == "dns"@,
        start + 2 <= end,
        end + 2 <= line@.len(),
    ensures
        r@ == line@.subrange(0, start as int) + spec_wb_action_fragment(
            spec_lower(prog_type@) == "dns"@,
            list@,
            config.spec_action(),
        ) + line@.subrange(end + 2, line@.len() as int),
{
    let lowered = lower_chars(chars_of(prog_type).as_slice());
    let dns = chars_eq_str(lowered.as_slice(), "dns");
    let frag = build_wb_action_fragment(dns, list, config.get_action());
    let lchars = chars_of(line);
    splice(lchars.as_slice(), start, end, frag.as_slice())
}

/// Replaces the placeholder span of a line with the rate-limited list's
/// action fragment: a plain pass/drop body when its action is binary, the
/// reputation state machine otherwise.
pub fn replace_g_action(config: &Init, start: usize, end: usize, line: &str, list: &str) -> (r:
    String)
    requires
        config.graylist is Some,
        start + 2 <= end,
        end + 2 <= line@.len(),
    ensures
        ({
            let g = config.graylist->Some_0;
            if g.spec_action() == "allow"@ || g.spec_action() == "deny"@ {
                r@ == line@.subrange(0, start as int) + spec_wb_action_fragment(
                    false,
                    list@,
                    g.spec_action(),
                ) + line@.subrange(end + 2, line@.len() as int)
            } else {
                r@ == line@.subrange(0, start as int) + spec_gray_fragment(
                    list@,
                    g.spec_frequency(),
                    g.spec_fast_packets(),
                ) + line@.subrange(end + 2, line@.len() as int)
            }
        }),
{
    let g = match &config.graylist {
        Some(g) => g,
        None => {
            return unreached();
        },
    };
    let act = g.get_action();
    if str_eq(act, "allow") || str_eq(act, "deny") {
        let frag = build_wb_action_fragment(false, list, act);
        let lchars = chars_of(line);
        splice(lchars.as_slice(), start, end, frag.as_slice())
    } else {
        let frag = build_gray_fragment(list, g.frequency_or_default(), g.fast_packets_or_default());
        let lchars = chars_of(line);
        splice(lchars.as_slice(), start, end, frag.as_slice())
    }
}

/// Replaces the placeholder span of a line with the resolved default
/// action keyword.
pub fn replace_default_action(config: &Config, start: usize, end: usize, line: &str) -> (r: String)
    requires
        config.init is Some,
        start + 2 <= end,
        end + 2 <= line@.len(),
    ensures
        r@ == line@.subrange(0, start as int) + spec_default_action_token(
            config.init->Some_0.spec_xdp_action(),
        ) + line@.subrange(end + 2, line@.len() as int),
{
    let init = match &config.init {
        Some(i) => i,
        None => {
            return unreached();
        },
    };
    let act = match &init.xdp_action {
        Some(a) => a.as_str(),
        None => "PASS",
    };
    let tok = chars_of(default_action_token(act));
    let lchars = chars_of(line);
    splice(lchars.as_slice(), start, end, tok.as_slice())
}

} // verus!
