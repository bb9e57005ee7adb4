//! The deployment orchestrator's decisions: resolving the target and the
//! attach interface, the exact privileged commands each lifecycle step
//! issues, the persisted registry that records what was stood up, and the
//! rule that an unload without a registry entry fails before anything is
//! touched.  The surrounding process and remote-shell plumbing performs
//! these decisions; it computes none of them.

use crate::text::{append_all, chars_of, dec_chars, spec_dec, str_eq, string_of, subvec};
use vstd::prelude::*;

verus! {

/// The attach-flag token the kernel tooling expects; any unrecognized
/// name falls back to the generic (software) hook.
pub open spec fn spec_flag_token(f: Seq<char>) -> Seq<char> {
    if f == "native"@ {
        "xdpdrv"@
    } else if f == "offloaded"@ {
        "xdpoffload"@
    } else {
        "xdpgeneric"@
    }
}

/// Maps the user-facing attach-flag name onto the kernel tooling's token.
pub fn xdp_flag_token(flags: &str) -> (r: &'static str)
    ensures
        r@ == spec_flag_token(flags@),
{
    proof {
        reveal_strlit("native");
        reveal_strlit("offloaded");
        assert("native"@.len() == 6);
        assert("offloaded"@.len() == 9);
    }
    if str_eq(flags, "native") {
        "xdpdrv"
    } else if str_eq(flags, "offloaded") {
        "xdpoffload"
    } else {
        "xdpgeneric"
    }
}

/// A target is local when the policy names no host, or names the local
/// host itself.
pub open spec fn spec_local_target(h: Option<String>) -> bool {
    match h {
        None => true,
        Some(s) => s@ == "localhost"@ || s@ == "127.0.0.1"@,
    }
}

/// Whether the policy's target resolves to local execution.
pub fn is_local_target(hostname: &Option<String>) -> (r: bool)
    ensures
        r == spec_local_target(*hostname),
{
    match hostname {
        None => true,
        Some(s) => str_eq(s.as_str(), "localhost") || str_eq(s.as_str(), "127.0.0.1"),
    }
}

/// How the attach interface is resolved from the policy and the command
/// line.
#[derive(Debug, Clone, Copy, PartialEq, Eq, Structural)]
pub enum IfaceChoice {
    /// Policy and command line disagree: explicit confirmation is owed
    /// before proceeding.
    ConfirmOverride,
    /// Only the policy names an interface: use it.
    FromConfig,
    /// Neither names one: use the documented default.
    DefaultIface,
    /// Use the interface from the command line.
    FromOptions,
}

/// Resolves which attach interface to use, demanding confirmation
/// whenever the command line would override the policy.
pub fn choose_iface(config_iface: &Option<String>, cli_iface: &str) -> (r: IfaceChoice)
    ensures
        ({
            match *config_iface {
                Some(ci) => {
                    if cli_iface@.len() > 0 && ci@ != cli_iface@ {
                        r == IfaceChoice::ConfirmOverride
                    } else if cli_iface@.len() == 0 {
                        r == IfaceChoice::FromConfig
                    } else {
                        r == IfaceChoice::FromOptions
                    }
                },
                None => {
                    if cli_iface@.len() == 0 {
                        r == IfaceChoice::DefaultIface
                    } else {
                        r == IfaceChoice::FromOptions
                    }
                },
            }
        }),
{
    let cli_len = cli_iface.unicode_len();
    match config_iface {
        Some(ci) => {
            if cli_len > 0 && !str_eq(ci.as_str(), cli_iface) {
                IfaceChoice::ConfirmOverride
            } else if cli_len == 0 {
                IfaceChoice::FromConfig
            } else {
                IfaceChoice::FromOptions
            }
        },
        None => {
            if cli_len == 0 {
                IfaceChoice::DefaultIface
            } else {
                IfaceChoice::FromOptions
            }
        },
    }
}

/// Appends a string's characters.
fn push_str(out: &mut Vec<char>, s: &str)
    ensures
        final(out)@ == old(out)@ + s@,
{
    let c = chars_of(s);
    append_all(out, c.as_slice());
}

/// Appends a number's decimal rendering.
fn push_dec(out: &mut Vec<char>, n: u64)
    ensures
        final(out)@ == old(out)@ + spec_dec(n as nat),
{
    let c = dec_chars(n);
    append_all(out, c.as_slice());
}

/// The path a program of the given name is pinned under.
pub fn pin_path(name: &str) -> (r: String)
    ensures
        r@ == "/sys/fs/bpf/"@ + name@,
{
    let mut out: Vec<char> = Vec::new();
    push_str(&mut out, "/sys/fs/bpf/");
    push_str(&mut out, name);
    proof {
        assert(out@ =~= "/sys/fs/bpf/"@ + name@);
    }
    string_of(out.as_slice())
}

/// The privileged command that loads a compiled object and pins it under
/// the program's name.
pub fn prog_load_cmd(object_path: &str, name: &str) -> (r: String)
    ensures
        r@ == "bpftool prog load "@ + object_path@ + " /sys/fs/bpf/"@ + name@,
{
    let mut out: Vec<char> = Vec::new();
    push_str(&mut out, "bpftool prog load ");
    push_str(&mut out, object_path);
    push_str(&mut out, " /sys/fs/bpf/");
    push_str(&mut out, name);
    proof {
        assert(out@ =~= "bpftool prog load "@ + object_path@ + " /sys/fs/bpf/"@ + name@);
    }
    string_of(out.as_slice())
}

/// The command that lists loaded programs as JSON.
pub fn prog_show_cmd() -> (r: String)
    ensures
        r@ == "bpftool prog show -j"@,
{
    let mut out: Vec<char> = Vec::new();
    push_str(&mut out, "bpftool prog show -j");
    proof {
        assert(out@ =~= "bpftool prog show -j"@);
    }
    string_of(out.as_slice())
}

/// The command that lists maps as JSON.
pub fn map_show_cmd() -> (r: String)
    ensures
        r@ == "bpftool map show -j"@,
{
    let mut out: Vec<char> = Vec::new();
    push_str(&mut out, "bpftool map show -j");
    proof {
        assert(out@ =~= "bpftool map show -j"@);
    }
    string_of(out.as_slice())
}

/// The command that dumps one map's contents as JSON.
pub fn map_dump_cmd(map_id: u64) -> (r: String)
    ensures
        r@ == "bpftool map dump id "@ + spec_dec(map_id as nat) + " -j"@,
{
    let mut out: Vec<char> = Vec::new();
    push_str(&mut out, "bpftool map dump id ");
    push_dec(&mut out, map_id);
    push_str(&mut out, " -j");
    proof {
        assert(out@ =~= "bpftool map dump id "@ + spec_dec(map_id as nat) + " -j"@);
    }
    string_of(out.as_slice())
}

/// The command that attaches a pinned program to an interface.
pub fn net_attach_cmd(xdp_flags: &str, prog_id: u64, iface: &str) -> (r: String)
    ensures
        r@ == "bpftool net attach "@ + spec_flag_token(xdp_flags@) + " id "@ + spec_dec(
            prog_id as nat,
        ) + " dev "@ + iface@,
{
    let mut out: Vec<char> = Vec::new();
    push_str(&mut out, "bpftool net attach ");
    push_str(&mut out, xdp_flag_token(xdp_flags));
    push_str(&mut out, " id ");
    push_dec(&mut out, prog_id);
    push_str(&mut out, " dev ");
    push_str(&mut out, iface);
    proof {
        assert(out@ =~= "bpftool net attach "@ + spec_flag_token(xdp_flags@) + " id "@ + spec_dec(
            prog_id as nat,
        ) + " dev "@ + iface@);
    }
    string_of(out.as_slice())
}

/// The command that detaches from an interface.
pub fn net_detach_cmd(xdp_flags: &str, iface: &str) -> (r: String)
    ensures
        r@ == "bpftool net detach "@ + spec_flag_token(xdp_flags@) + " dev "@ + iface@,
{
    let mut out: Vec<char> = Vec::new();
    push_str(&mut out, "bpftool net detach ");
    push_str(&mut out, xdp_flag_token(xdp_flags));
    push_str(&mut out, " dev ");
    push_str(&mut out, iface);
    proof {
        assert(out@ =~= "bpftool net detach "@ + spec_flag_token(xdp_flags@) + " dev "@ + iface@);
    }
    string_of(out.as_slice())
}

/// The command that removes a program's pin.
pub fn remove_pin_cmd(name: &str) -> (r: String)
    ensures
        r@ == "rm /sys/fs/bpf/"@ + name@,
{
    let mut out: Vec<char> = Vec::new();
    push_str(&mut out, "rm /sys/fs/bpf/");
    push_str(&mut out, name);
    proof {
        assert(out@ =~= "rm /sys/fs/bpf/"@ + name@);
    }
    string_of(out.as_slice())
}

/// A command wrapped for remote privileged execution: the credential is
/// piped into the elevation tool.  The credential lives only in the
/// returned command text, never on disk.
pub fn elevate_cmd(password: &str, cmd: &str) -> (r: String)
    ensures
        r@ == "echo "@ + password@ + " | sudo -S "@ + cmd@,
{
    let mut out: Vec<char> = Vec::new();
    push_str(&mut out, "echo ");
    push_str(&mut out, password);
    push_str(&mut out, " | sudo -S ");
    push_str(&mut out, cmd);
    proof {
        assert(out@ =~= "echo "@ + password@ + " | sudo -S "@ + cmd@);
    }
    string_of(out.as_slice())
}

/// A whitespace character, as address trimming sees it.
pub open spec fn spec_is_space(c: char) -> bool {
    c == ' ' || c == '\t' || c == '\n' || c == '\r'
}

/// The characters with trailing whitespace removed.
pub open spec fn spec_trim_end(s: Seq<char>) -> Seq<char>
    decreases s.len(),
{
    if s.len() > 0 && spec_is_space(s.last()) {
        spec_trim_end(s.drop_last())
    } else {
        s
    }
}

/// The characters with leading whitespace removed.
pub open spec fn spec_trim_start(s: Seq<char>) -> Seq<char>
    decreases s.len(),
{
    if s.len() > 0 && spec_is_space(s[0]) {
        spec_trim_start(s.drop_first())
    } else {
        s
    }
}

/// The characters with surrounding whitespace removed.
pub open spec fn spec_trim(s: Seq<char>) -> Seq<char> {
    spec_trim_start(spec_trim_end(s))
}

fn is_space(c: char) -> (r: bool)
    ensures
        r == spec_is_space(c),
{
    c == ' ' || c == '\t' || c == '\n' || c == '\r'
}

/// Removes surrounding whitespace.
pub fn trim_chars(v: &[char]) -> (r: Vec<char>)
    ensures
        r@ == spec_trim(v@),
{
    let n = v.len();
    let mut end: usize = n;
    proof {
        assert(v@.subrange(0, n as int) =~= v@);
    }
    loop
        invariant
            end <= n,
            n == v@.len(),
            spec_trim_end(v@) == spec_trim_end(v@.subrange(0, end as int)),
        ensures
            end <= n,
            n == v@.len(),
            spec_trim_end(v@) == v@.subrange(0, end as int),
        decreases end,
    {
        if end == 0 {
            proof {
                assert(v@.subrange(0, 0) =~= Seq::<char>::empty());
            }
            break;
        }
        if !is_space(v[end - 1]) {
            proof {
                assert(v@.subrange(0, end as int).last() == v@[end - 1]);
            }
            break;
        }
        proof {
            assert(v@.subrange(0, end as int).last() == v@[end - 1]);
            assert(v@.subrange(0, end as int).drop_last() =~= v@.subrange(0, end - 1));
        }
        end = end - 1;
    }
    let mut start: usize = 0;
    loop
        invariant
            start <= end <= n,
            n == v@.len(),
            spec_trim_end(v@) == v@.subrange(0, end as int),
            spec_trim(v@) == spec_trim_start(v@.subrange(start as int, end as int)),
        ensures
            start <= end <= n,
            n == v@.len(),
            spec_trim(v@) == v@.subrange(start as int, end as int),
        decreases end - start,
    {
        if start == end {
            proof {
                assert(v@.subrange(start as int, end as int) =~= Seq::<char>::empty());
            }
            break;
        }
        if !is_space(v[start]) {
            proof {
                assert(v@.subrange(start as int, end as int)[0] == v@[start as int]);
            }
            break;
        }
        proof {
            assert(v@.subrange(start as int, end as int)[0] == v@[start as int]);
            assert(v@.subrange(start as int, end as int).drop_first() =~= v@.subrange(
                start as int + 1,
                end as int,
            ));
        }
        start = start + 1;
    }
    subvec(v, start, end)
}

/// Fields joined with single spaces, as the kernel tool's command line
/// expects bytes.
pub open spec fn spec_join_sp(fs: Seq<Seq<char>>) -> Seq<char>
    decreases fs.len(),
{
    if fs.len() == 0 {
        Seq::empty()
    } else if fs.len() == 1 {
        fs[0]
    } else {
        fs[0] + seq![' '] + spec_join_sp(fs.drop_first())
    }
}

proof fn lemma_join_sp_push(fs: Seq<Seq<char>>, x: Seq<char>)
    ensures
        spec_join_sp(fs.push(x)) == if fs.len() == 0 {
            x
        } else {
            spec_join_sp(fs) + seq![' '] + x
        },
    decreases fs.len(),
{
    if fs.len() == 0 {
        assert(fs.push(x).len() == 1);
        assert(fs.push(x)[0] == x);
    } else {
        assert(fs.push(x)[0] == fs[0]);
        assert(fs.push(x).drop_first() =~= fs.drop_first().push(x));
        lemma_join_sp_push(fs.drop_first(), x);
        if fs.len() > 1 {
            assert(fs[0] + seq![' '] + (spec_join_sp(fs.drop_first()) + seq![' '] + x) =~= (fs[0]
                + seq![' '] + spec_join_sp(fs.drop_first())) + seq![' '] + x);
        }
    }
}

/// Joins fields with single spaces.
pub fn join_fields_sp(fields: &Vec<Vec<char>>) -> (r: Vec<char>)
    ensures
        r@ == spec_join_sp(crate::text::seq_views(fields@)),
{
    let ghost fv = crate::text::seq_views(fields@);
    let mut out: Vec<char> = Vec::new();
    let mut i: usize = 0;
    proof {
        assert(fv.subrange(0, 0) =~= Seq::<Seq<char>>::empty());
    }
    while i < fields.len()
        invariant
            i <= fields@.len(),
            fv == crate::text::seq_views(fields@),
            out@ == spec_join_sp(fv.subrange(0, i as int)),
        decreases fields@.len() - i,
    {
        let ghost pre = fv.subrange(0, i as int);
        if i > 0 {
            out.push(' ');
        }
        append_all(&mut out, fields[i].as_slice());
        proof {
            lemma_join_sp_push(pre, fv[i as int]);
            assert(fv.subrange(0, i as int + 1) =~= pre.push(fv[i as int]));
            if i > 0 {
                assert(out@ =~= spec_join_sp(pre) + seq![' '] + fv[i as int]);
            } else {
                assert(out@ =~= fv[i as int]);
            }
        }
        i = i + 1;
    }
    proof {
        assert(fv.subrange(0, fields@.len() as int) =~= fv);
    }
    out
}

/// The key text an address contributes to an update command: its
/// dot-separated fields re-joined with spaces, one byte each.
pub open spec fn spec_key_text(addr: Seq<char>) -> Seq<char> {
    spec_join_sp(crate::mapsync::spec_fields(spec_trim(addr)))
}

/// The privileged command that inserts one preload address into a map by
/// id: the four key bytes, then the value — the key echoed and the rest
/// of the record zeroed.
pub fn map_update_cmd(map_id: u64, address: &str) -> (r: String)
    ensures
        r@ == "bpftool map update id "@ + spec_dec(map_id as nat) + " key "@ + spec_key_text(
            address@,
        ) + " value "@ + spec_key_text(address@)
            + " 0 0 0 0 0 0 0 0 0 0 0 0 0 0 0 0 0 0 0 0 0 0 0 0 0 0 0 0"@,
{
    let trimmed = trim_chars(chars_of(address).as_slice());
    let fields = crate::mapsync::split_fields(trimmed.as_slice());
    let key = join_fields_sp(&fields);
    let mut out: Vec<char> = Vec::new();
    push_str(&mut out, "bpftool map update id ");
    push_dec(&mut out, map_id);
    push_str(&mut out, " key ");
    append_all(&mut out, key.as_slice());
    push_str(&mut out, " value ");
    append_all(&mut out, key.as_slice());
    push_str(&mut out, " 0 0 0 0 0 0 0 0 0 0 0 0 0 0 0 0 0 0 0 0 0 0 0 0 0 0 0 0");
    proof {
        assert(out@ =~= "bpftool map update id "@ + spec_dec(map_id as nat) + " key "@
            + spec_key_text(address@) + " value "@ + spec_key_text(address@)
            + " 0 0 0 0 0 0 0 0 0 0 0 0 0 0 0 0 0 0 0 0 0 0 0 0 0 0 0 0"@);
    }
    string_of(out.as_slice())
}

/// The persisted lifecycle registry: the ids of the loaded programs and,
/// for each, the preload data its maps were seeded with.  Its presence is
/// the only durable evidence that a program is attached.
#[derive(Debug, Clone)]
pub struct Progs {
    pub ids: Vec<usize>,
    pub progs: Vec<Prog>,
}

/// One loaded program's registry entry.
#[derive(Debug, Clone)]
pub struct Prog {
    pub id: usize,
    pub data: Vec<Maps>,
}

/// The preload echo of one map.
#[derive(Debug, Clone)]
pub struct Maps {
    pub whitelist: Option<ProgData>,
    pub blacklist: Option<ProgData>,
    pub graylist: Option<ProgData>,
}

/// The keys and values a map was seeded with.
#[derive(Debug, Clone)]
pub struct ProgData {
    pub key: Vec<String>,
    pub value: Vec<String>,
}

/// Which list a registry entry echoes.
#[derive(Debug, Clone, Copy, PartialEq, Eq, Structural)]
pub enum ListKind {
    Whitelist,
    Blacklist,
    Graylist,
}

/// The registry echo of one seeded map: the preload keys under the
/// seeded list, nothing under the others.
pub fn maps_entry(kind: ListKind, keys: Vec<String>) -> (r: Maps)
    ensures
        kind == ListKind::Whitelist ==> r.whitelist is Some && r.blacklist is None && r.graylist
            is None && r.whitelist->Some_0.key == keys && r.whitelist->Some_0.value@.len() == 0,
        kind == ListKind::Blacklist ==> r.whitelist is None && r.blacklist is Some && r.graylist
            is None && r.blacklist->Some_0.key == keys && r.blacklist->Some_0.value@.len() == 0,
        kind == ListKind::Graylist ==> r.whitelist is None && r.blacklist is None && r.graylist
            is Some && r.graylist->Some_0.key == keys && r.graylist->Some_0.value@.len() == 0,
{
    match kind {
        ListKind::Whitelist => Maps {
            whitelist: Some(ProgData { key: keys, value: Vec::new() }),
            blacklist: None,
            graylist: None,
        },
        ListKind::Blacklist => Maps {
            whitelist: None,
            blacklist: Some(ProgData { key: keys, value: Vec::new() }),
            graylist: None,
        },
        ListKind::Graylist => Maps {
            whitelist: None,
            blacklist: None,
            graylist: Some(ProgData { key: keys, value: Vec::new() }),
        },
    }
}

/// The registry written after one successful load.
pub fn registry_for_load(prog_id: usize, data: Vec<Maps>) -> (r: Progs)
    ensures
        r.ids@ == seq![prog_id],
        r.progs@.len() == 1,
        r.progs@[0].id == prog_id,
        r.progs@[0].data == data,
{
    let mut ids: Vec<usize> = Vec::new();
    ids.push(prog_id);
    let mut progs: Vec<Prog> = Vec::new();
    progs.push(Prog { id: prog_id, data });
    proof {
        assert(ids@ =~= seq![prog_id]);
    }
    Progs { ids, progs }
}

/// Unload with nothing recorded as loaded.
#[derive(Debug, Clone, Copy, PartialEq, Eq, Structural)]
pub enum UnloadError {
    NothingToUnload,
}

impl UnloadError {
    /// The human-readable description of the error.
    pub fn message(&self) -> (r: &'static str)
        ensures
            r@ == "No programs loaded"@,
    {
        "No programs loaded"
    }
}

/// The two commands a local or remote unload issues, in order.
pub struct UnloadPlan {
    pub detach_cmd: String,
    pub remove_pin_cmd: String,
}

/// Plans an unload.  The registry is consulted first: without an entry
/// the unload fails and no command — nothing that would mutate attachment
/// state — is produced at all.
pub fn plan_unload(registry: &Option<Progs>, name: &str, iface: &str, xdp_flags: &str) -> (r:
    Result<UnloadPlan, UnloadError>)
    ensures
        (r is Ok) == (match *registry {
            Some(p) => p.ids@.len() > 0,
            None => false,
        }),
        r is Ok ==> r->Ok_0.detach_cmd@ == "bpftool net detach "@ + spec_flag_token(xdp_flags@)
            + " dev "@ + iface@,
        r is Ok ==> r->Ok_0.remove_pin_cmd@ == "rm /sys/fs/bpf/"@ + name@,
        r is Err ==> r->Err_0 == UnloadError::NothingToUnload,
{
    match registry {
        Some(p) => {
            if p.ids.len() > 0 {
                Ok(
                    UnloadPlan {
                        detach_cmd: net_detach_cmd(xdp_flags, iface),
                        remove_pin_cmd: remove_pin_cmd(name),
                    },
                )
            } else {
                Err(UnloadError::NothingToUnload)
            }
        },
        None => Err(UnloadError::NothingToUnload),
    }
}

} // verus!
