//! The fixed-width map codec: each preload address is encoded into the
//! four-byte key the kernel map expects (dotted-quad order) and a value
//! holding the tracking record's binary layout, zero-initialized beyond
//! the echoed key.  The decode path reverses the layout for monitoring,
//! accumulating the distinct addresses seen in a map.

use crate::text::{dec_chars, find1, find1_from, lemma_find1_bounds, spec_dec, str_eq, string_of,
    subvec};
use vstd::prelude::*;

verus! {

/// Bytes of the tracking record beyond the echoed address: three
/// eight-byte counters and the padding of the four-byte address field.
pub const VALUE_ZERO_TAIL: usize = 28;

/// A decimal digit.
pub open spec fn spec_is_digit(c: char) -> bool {
    '0' <= c && c <= '9'
}

/// The value of a decimal digit.
pub open spec fn spec_digit_val(c: char) -> nat {
    (c as int - '0' as int) as nat
}

/// Every character is a decimal digit.
pub open spec fn spec_all_digits(s: Seq<char>) -> bool {
    forall|j: int| 0 <= j < s.len() ==> spec_is_digit(#[trigger] s[j])
}

/// The value of a digit string, most significant digit first.
pub open spec fn spec_dec_val(s: Seq<char>) -> nat
    decreases s.len(),
{
    if s.len() == 0 {
        0
    } else {
        spec_dec_val(s.drop_last()) * 10 + spec_digit_val(s.last())
    }
}

/// The digits of a numeral: an optional leading plus sign is skipped.
pub open spec fn spec_digits_of(s: Seq<char>) -> Seq<char> {
    if s.len() > 0 && s[0] == '+' {
        s.drop_first()
    } else {
        s
    }
}

/// Whether a string parses as an eight-bit unsigned number.
pub open spec fn spec_is_u8_numeral(s: Seq<char>) -> bool {
    let d = spec_digits_of(s);
    d.len() > 0 && spec_all_digits(d) && spec_dec_val(d) <= 255
}

/// The byte an address component encodes to: its numeric value, or zero
/// for anything that is not an eight-bit number.
pub open spec fn spec_octet(s: Seq<char>) -> u8 {
    if spec_is_u8_numeral(s) {
        spec_dec_val(spec_digits_of(s)) as u8
    } else {
        0
    }
}

/// A digit string's value only grows as more digits follow.
proof fn lemma_dec_val_prefix(s: Seq<char>, j: int)
    requires
        0 <= j <= s.len(),
    ensures
        spec_dec_val(s.subrange(0, j)) <= spec_dec_val(s),
    decreases s.len() - j,
{
    if j == s.len() {
        assert(s.subrange(0, j) =~= s);
    } else {
        assert(s.subrange(0, j + 1).drop_last() =~= s.subrange(0, j));
        assert(s.subrange(0, j + 1).last() == s[j]);
        lemma_dec_val_prefix(s, j + 1);
    }
}

fn digit_value(c: char) -> (r: Option<u32>)
    ensures
        match r {
            Some(d) => spec_is_digit(c) && d == spec_digit_val(c) && d <= 9,
            None => !spec_is_digit(c),
        },
{
    if '0' <= c && c <= '9' {
        Some((c as u32) - ('0' as u32))
    } else {
        None
    }
}

/// Parses one address component with the encode path's tolerance: any
/// component that is not an eight-bit number becomes zero.
pub fn parse_octet(v: &[char]) -> (r: u8)
    ensures
        r == spec_octet(v@),
{
    let n = v.len();
    let ds: usize = if n > 0 && v[0] == '+' {
        1
    } else {
        0
    };
    let ghost d = spec_digits_of(v@);
    proof {
        assert(d =~= v@.subrange(ds as int, n as int));
    }
    if n == ds {
        return 0;
    }
    let mut acc: u32 = 0;
    let mut j: usize = ds;
    while j < n
        invariant
            ds <= j <= n,
            n == v@.len(),
            ds <= 1,
            d == spec_digits_of(v@),
            d == v@.subrange(ds as int, n as int),
            d.len() > 0,
            spec_all_digits(d.subrange(0, j - ds)),
            acc == spec_dec_val(d.subrange(0, j - ds)),
            acc <= 255,
        decreases n - j,
    {
        let ghost pre = d.subrange(0, j - ds);
        match digit_value(v[j]) {
            None => {
                assert(!spec_is_u8_numeral(v@)) by {
                    assert(0 <= j - ds < d.len());
                    assert(d[j - ds] == v@[j as int]);
                    assert(!spec_is_digit(d[j - ds]));
                    assert(!spec_all_digits(d));
                }
                return 0;
            },
            Some(dv) => {
                proof {
                    assert(d.subrange(0, j + 1 - ds).drop_last() =~= pre);
                    assert(d.subrange(0, j + 1 - ds).last() == v@[j as int]);
                }
                acc = acc * 10 + dv;
                if acc > 255 {
                    assert(!spec_is_u8_numeral(v@)) by {
                        assert(spec_dec_val(d.subrange(0, j + 1 - ds)) == spec_dec_val(pre) * 10
                            + spec_digit_val(v@[j as int]));
                        assert(acc == spec_dec_val(d.subrange(0, j + 1 - ds)));
                        lemma_dec_val_prefix(d, j + 1 - ds);
                        assert(spec_dec_val(d) > 255);
                    }
                    return 0;
                }
                j = j + 1;
            },
        }
    }
    proof {
        assert(d.subrange(0, n - ds) =~= d);
        assert(spec_is_u8_numeral(v@));
    }
    acc as u8
}

/// The fields of an address string, split at every dot.
pub open spec fn spec_fields_from(s: Seq<char>, i: int) -> Seq<Seq<char>>
    recommends
        0 <= i <= s.len(),
    decreases s.len() - i,
    via spec_fields_from_dec
{
    match find1_from(s, '.', i) {
        None => seq![s.subrange(i, s.len() as int)],
        Some(k) => seq![s.subrange(i, k)] + spec_fields_from(s, k + 1),
    }
}

#[via_fn]
proof fn spec_fields_from_dec(s: Seq<char>, i: int) {
    match find1_from(s, '.', i) {
        None => {},
        Some(k) => {
            lemma_find1_bounds(s, '.', i, k);
        },
    }
}

/// The fields of an address string.  There is always at least one field;
/// an empty string has one empty field.
pub open spec fn spec_fields(s: Seq<char>) -> Seq<Seq<char>> {
    spec_fields_from(s, 0)
}

/// Splits an address string at every dot.
pub fn split_fields(v: &[char]) -> (r: Vec<Vec<char>>)
    ensures
        crate::text::seq_views(r@) == spec_fields(v@),
{
    let n = v.len();
    let mut r: Vec<Vec<char>> = Vec::new();
    let mut i: usize = 0;
    loop
        invariant
            i <= n,
            n == v@.len(),
            crate::text::seq_views(r@) + spec_fields_from(v@, i as int) == spec_fields(v@),
        decreases n - i,
    {
        let ghost old_r = r@;
        let ghost old_i = i as int;
        match find1(v, '.', i) {
            None => {
                r.push(subvec(v, i, n));
                proof {
                    assert(crate::text::seq_views(r@) =~= crate::text::seq_views(old_r) + seq![
                        r@.last()@,
                    ]);
                    assert(crate::text::seq_views(r@) =~= spec_fields(v@));
                }
                return r;
            },
            Some(k) => {
                r.push(subvec(v, i, k));
                i = k + 1;
                proof {
                    assert(crate::text::seq_views(r@) =~= crate::text::seq_views(old_r) + seq![
                        r@.last()@,
                    ]);
                    assert(crate::text::seq_views(r@) + spec_fields_from(v@, i as int)
                        =~= crate::text::seq_views(old_r) + (seq![r@.last()@] + spec_fields_from(
                        v@,
                        i as int,
                    )));
                }
            },
        }
    }
}

/// The map key an address encodes to: one byte per field.
pub open spec fn spec_ip_key(addr: Seq<char>) -> Seq<u8> {
    spec_fields(addr).map_values(|f: Seq<char>| spec_octet(f))
}

/// Encodes an address into its map key.
pub fn encode_ip_key(addr: &str) -> (r: Vec<u8>)
    ensures
        r@ == spec_ip_key(addr@),
{
    let chars = crate::text::chars_of(addr);
    let fields = split_fields(chars.as_slice());
    let ghost fv = crate::text::seq_views(fields@);
    let mut r: Vec<u8> = Vec::new();
    let mut i: usize = 0;
    while i < fields.len()
        invariant
            i <= fields@.len(),
            fv == crate::text::seq_views(fields@),
            fv == spec_fields(addr@),
            r@.len() == i,
            forall|j: int| 0 <= j < i ==> r@[j] == spec_octet(#[trigger] fv[j]),
        decreases fields@.len() - i,
    {
        r.push(parse_octet(fields[i].as_slice()));
        i = i + 1;
    }
    proof {
        assert(r@ =~= spec_ip_key(addr@));
    }
    r
}

/// The map value an address encodes to: the key echoed, then zeroes for
/// the rest of the record.
pub open spec fn spec_ip_value(addr: Seq<char>) -> Seq<u8> {
    spec_ip_key(addr) + Seq::new(VALUE_ZERO_TAIL as nat, |j: int| 0u8)
}

/// Encodes an address into its initial map value.
pub fn encode_ip_value(addr: &str) -> (r: Vec<u8>)
    ensures
        r@ == spec_ip_value(addr@),
{
    let mut r = encode_ip_key(addr);
    let ghost key = r@;
    let mut j: usize = 0;
    while j < VALUE_ZERO_TAIL
        invariant
            j <= VALUE_ZERO_TAIL,
            r@ =~= key + Seq::new(j as nat, |k: int| 0u8),
        decreases VALUE_ZERO_TAIL - j,
    {
        r.push(0);
        j = j + 1;
        proof {
            assert(r@ =~= key + Seq::new(j as nat, |k: int| 0u8));
        }
    }
    r
}

/// The dotted-quad rendering of a four-byte key.
pub open spec fn spec_dotted(b: Seq<u8>) -> Seq<char>
    recommends
        b.len() == 4,
{
    spec_dec(b[0] as nat) + seq!['.'] + spec_dec(b[1] as nat) + seq!['.'] + spec_dec(b[2] as nat)
        + seq!['.'] + spec_dec(b[3] as nat)
}

/// Renders the first four bytes of a record as a dotted-quad address.
pub fn dotted_quad(b: &[u8]) -> (r: String)
    requires
        b@.len() >= 4,
    ensures
        r@ == spec_dotted(b@.subrange(0, 4)),
{
    let mut out = dec_chars(b[0] as u64);
    let mut i: usize = 1;
    out.push('.');
    let second = dec_chars(b[1] as u64);
    crate::text::append_all(&mut out, second.as_slice());
    out.push('.');
    let third = dec_chars(b[2] as u64);
    crate::text::append_all(&mut out, third.as_slice());
    out.push('.');
    let fourth = dec_chars(b[3] as u64);
    crate::text::append_all(&mut out, fourth.as_slice());
    proof {
        let key = b@.subrange(0, 4);
        assert(key[0] == b@[0] && key[1] == b@[1] && key[2] == b@[2] && key[3] == b@[3]);
        assert(out@ =~= spec_dotted(key));
    }
    string_of(out.as_slice())
}

/// The fields of an address joined back with dots.
pub open spec fn spec_join_dots(fs: Seq<Seq<char>>) -> Seq<char>
    decreases fs.len(),
{
    if fs.len() == 0 {
        Seq::empty()
    } else if fs.len() == 1 {
        fs[0]
    } else {
        fs[0] + seq!['.'] + spec_join_dots(fs.drop_first())
    }
}

proof fn lemma_fields_from_nonempty(s: Seq<char>, i: int)
    ensures
        spec_fields_from(s, i).len() >= 1,
{
    match find1_from(s, '.', i) {
        None => {},
        Some(k) => {},
    }
}

/// Splitting at dots and joining with dots are inverse.
proof fn lemma_join_fields_from(s: Seq<char>, i: int)
    requires
        0 <= i <= s.len(),
    ensures
        spec_join_dots(spec_fields_from(s, i)) == s.subrange(i, s.len() as int),
    decreases s.len() - i,
{
    match find1_from(s, '.', i) {
        None => {},
        Some(k) => {
            lemma_find1_bounds(s, '.', i, k);
            lemma_join_fields_from(s, k + 1);
            lemma_fields_from_nonempty(s, k + 1);
            let fs = spec_fields_from(s, i);
            assert(fs.drop_first() =~= spec_fields_from(s, k + 1));
            assert(fs[0] == s.subrange(i, k));
            assert(s.subrange(i, k) + seq!['.'] + s.subrange(k + 1, s.len() as int) =~= s.subrange(
                i,
                s.len() as int,
            ));
        },
    }
}

/// A canonical dotted quad: four fields, each the canonical decimal
/// rendering of its own value.
pub open spec fn spec_canonical_quad(s: Seq<char>) -> bool {
    let fs = spec_fields(s);
    fs.len() == 4 && (forall|j: int|
        0 <= j < 4 ==> (#[trigger] fs[j]) == spec_dec(spec_octet(fs[j]) as nat))
}

/// Round trip of one address: encoding a canonical dotted quad into its
/// map key and rendering the key back reproduces the address.
#[verifier::spinoff_prover]
#[verifier::rlimit(50)]
pub proof fn lemma_ip_roundtrip(addr: Seq<char>)
    requires
        spec_canonical_quad(addr),
    ensures
        spec_ip_key(addr).len() == 4,
        spec_dotted(spec_ip_key(addr)) == addr,
{
    let fs = spec_fields(addr);
    let key = spec_ip_key(addr);
    lemma_join_fields_from(addr, 0);
    assert(addr.subrange(0, addr.len() as int) =~= addr);
    let t1 = fs.drop_first();
    let t2 = t1.drop_first();
    let t3 = t2.drop_first();
    assert(t1[0] == fs[1] && t1[1] == fs[2] && t1[2] == fs[3]);
    assert(t2[0] == fs[2] && t2[1] == fs[3]);
    assert(t3[0] == fs[3] && t3.len() == 1);
    assert(spec_join_dots(t3) == fs[3]);
    assert(spec_join_dots(t2) == fs[2] + seq!['.'] + fs[3]);
    assert(spec_join_dots(t1) == fs[1] + seq!['.'] + (fs[2] + seq!['.'] + fs[3]));
    assert(spec_join_dots(fs) == fs[0] + seq!['.'] + (fs[1] + seq!['.'] + (fs[2] + seq!['.']
        + fs[3])));
    assert(key[0] == spec_octet(fs[0]) && key[1] == spec_octet(fs[1]) && key[2] == spec_octet(
        fs[2],
    ) && key[3] == spec_octet(fs[3]));
    assert(spec_dotted(key) =~= spec_join_dots(fs));
}

/// The views of a sequence of byte vectors.
pub open spec fn byte_views(rs: Seq<Vec<u8>>) -> Seq<Seq<u8>> {
    rs.map_values(|r: Vec<u8>| r@)
}

/// The views of a sequence of strings.
pub open spec fn str_views(ss: Seq<String>) -> Seq<Seq<char>> {
    ss.map_values(|s: String| s@)
}

/// The distinct addresses a sequence of map records decodes to, in order
/// of first appearance.
pub open spec fn spec_distinct_ips(rs: Seq<Seq<u8>>) -> Seq<Seq<char>>
    decreases rs.len(),
{
    if rs.len() == 0 {
        Seq::empty()
    } else {
        let front = spec_distinct_ips(rs.drop_last());
        let ip = spec_dotted(rs.last().subrange(0, 4));
        if front.contains(ip) {
            front
        } else {
            front.push(ip)
        }
    }
}

/// Appends an address unless it is already present.
pub fn push_unique(acc: &mut Vec<String>, ip: String)
    ensures
        str_views(final(acc)@) == (if str_views(old(acc)@).contains(ip@) {
            str_views(old(acc)@)
        } else {
            str_views(old(acc)@).push(ip@)
        }),
{
    let mut i: usize = 0;
    while i < acc.len()
        invariant
            i <= acc@.len(),
            acc@ == old(acc)@,
            forall|j: int| 0 <= j < i ==> (#[trigger] acc@[j])@ != ip@,
        decreases acc@.len() - i,
    {
        if str_eq(acc[i].as_str(), ip.as_str()) {
            proof {
                assert(str_views(acc@)[i as int] == ip@);
                assert(str_views(acc@).contains(ip@));
            }
            return;
        }
        i = i + 1;
    }
    proof {
        assert(!str_views(acc@).contains(ip@)) by {
            if str_views(acc@).contains(ip@) {
                let j = choose|j: int|
                    0 <= j < str_views(acc@).len() && str_views(acc@)[j] == ip@;
                assert(acc@[j]@ == ip@);
            }
        }
    }
    let ghost before = acc@;
    acc.push(ip);
    proof {
        assert(str_views(acc@) =~= str_views(before).push(acc@.last()@));
    }
}

/// Decodes a sequence of map records into the distinct addresses they
/// hold, tolerating an empty map.
pub fn distinct_ips(records: &Vec<Vec<u8>>) -> (r: Vec<String>)
    requires
        forall|j: int| 0 <= j < records@.len() ==> (#[trigger] records@[j])@.len() >= 4,
    ensures
        str_views(r@) == spec_distinct_ips(byte_views(records@)),
{
    let ghost bv = byte_views(records@);
    let mut acc: Vec<String> = Vec::new();
    let mut i: usize = 0;
    proof {
        assert(str_views(acc@) =~= spec_distinct_ips(bv.subrange(0, 0)));
    }
    while i < records.len()
        invariant
            i <= records@.len(),
            bv == byte_views(records@),
            forall|j: int| 0 <= j < records@.len() ==> (#[trigger] records@[j])@.len() >= 4,
            str_views(acc@) == spec_distinct_ips(bv.subrange(0, i as int)),
        decreases records@.len() - i,
    {
        proof {
            assert(bv[i as int] == records@[i as int]@);
        }
        let ip = dotted_quad(records[i].as_slice());
        let ghost before = str_views(acc@);
        push_unique(&mut acc, ip);
        proof {
            assert(bv.subrange(0, i + 1).drop_last() =~= bv.subrange(0, i as int));
            assert(bv.subrange(0, i + 1).last() == records@[i as int]@);
        }
        i = i + 1;
    }
    proof {
        assert(bv.subrange(0, records@.len() as int) =~= bv);
    }
    acc
}

/// A sequence's set of elements is its front's set plus its last element.
proof fn lemma_to_set_last<A>(s: Seq<A>)
    requires
        s.len() > 0,
    ensures
        s.to_set() == s.drop_last().to_set().insert(s.last()),
{
    assert forall|x: A| s.to_set().contains(x) implies s.drop_last().to_set().insert(
        s.last(),
    ).contains(x) by {
        let j = choose|j: int| 0 <= j < s.len() && s[j] == x;
        if j < s.len() - 1 {
            assert(s.drop_last()[j] == x);
            assert(s.drop_last().contains(x));
        }
    };
    assert forall|x: A| s.drop_last().to_set().insert(s.last()).contains(x) implies s.to_set()
        .contains(x) by {
        if s.drop_last().to_set().contains(x) {
            let j = choose|j: int| 0 <= j < s.drop_last().len() && s.drop_last()[j] == x;
            assert(s[j] == x);
        } else {
            assert(s[s.len() - 1] == x);
        }
    };
    assert(s.to_set() =~= s.drop_last().to_set().insert(s.last()));
}

/// Round trip of a preload list: encoding every canonical address into
/// map records and decoding the records back yields the same set of
/// addresses (order not guaranteed, duplicates collapsed).
pub proof fn lemma_preload_roundtrip(addrs: Seq<Seq<char>>)
    requires
        forall|j: int| 0 <= j < addrs.len() ==> spec_canonical_quad(#[trigger] addrs[j]),
    ensures
        spec_distinct_ips(addrs.map_values(|a: Seq<char>| spec_ip_value(a))).to_set()
            == addrs.to_set(),
    decreases addrs.len(),
{
    let vs = addrs.map_values(|a: Seq<char>| spec_ip_value(a));
    if addrs.len() == 0 {
        assert(spec_distinct_ips(vs).to_set() =~= addrs.to_set());
    } else {
        let dl = addrs.drop_last();
        assert(forall|j: int| 0 <= j < dl.len() ==> spec_canonical_quad(#[trigger] dl[j])) by {
            assert(forall|j: int| 0 <= j < dl.len() ==> dl[j] == addrs[j]);
        }
        lemma_preload_roundtrip(dl);
        assert(vs.drop_last() =~= dl.map_values(|a: Seq<char>| spec_ip_value(a)));
        lemma_ip_roundtrip(addrs.last());
        assert(vs.last() == spec_ip_value(addrs.last()));
        assert(vs.last().subrange(0, 4) =~= spec_ip_key(addrs.last()));
        let front = spec_distinct_ips(vs.drop_last());
        lemma_to_set_last(addrs);
        if front.contains(addrs.last()) {
            assert(front.to_set().contains(addrs.last()));
            assert(dl.to_set().insert(addrs.last()) =~= dl.to_set());
            assert(spec_distinct_ips(vs).to_set() =~= addrs.to_set());
        } else {
            lemma_to_set_last(front.push(addrs.last()));
            assert(front.push(addrs.last()).drop_last() =~= front);
            assert(spec_distinct_ips(vs).to_set() =~= addrs.to_set());
        }
    }
}

} // verus!
