//! VLAN creation, deletion, batch ranges and the VLAN table.

use vstd::prelude::*;
use crate::cli::{fail, fail_lit, ok, opt_reply, CliView, CommandResult, Reply};
use crate::network::NetworkDevice;
use crate::text::{
    after, after_chars, append_chars, append_str, chars_of, contains, contains_char, dec,
    fields, find, find_from, find_str, has_char, has_prefix, has_sub, pad, parse_uint,
    parse_unsigned, push_dec, push_padded, push_padded_str, push_zero_padded, split_char,
    split_ws, starts_with, trim, trim_chars, views, words, zero_pad, copy_range, dec_chars,
    is_lit, repeat, push_repeat, lemma_dec, lemma_parse_dec, lemma_find_none, lemma_find_skip,
    lemma_fields_append, is_digit, is_ws, trim_start, lemma_find_none_at, lemma_words_append,
    lemma_words_space,
};

verus! {

/// The message of a configuration command issued outside system view.
pub const NEED_SYSTEM_VIEW: &'static str = "Error: Command requires system-view. Enter 'system-view' first.";

/// The last whitespace-separated word of `c` (empty when there is none).
pub open spec fn last_word(c: Seq<char>) -> Seq<char> {
    let w = words(c);
    if w.len() > 0 {
        w.last()
    } else {
        seq![]
    }
}

/// The ids `s..=e`.
pub open spec fn id_range(s: nat, e: nat) -> Seq<u16> {
    Seq::new((e + 1 - s) as nat, |i: int| (s + i) as u16)
}

/// A range given by its two ends as text.
pub open spec fn range_of(a: Seq<char>, b: Seq<char>) -> Result<Seq<u16>, Seq<char>> {
    match parse_unsigned(a, 65535) {
        None => Err("Invalid start VLAN"@),
        Some(s) => match parse_unsigned(b, 65535) {
            None => Err("Invalid end VLAN"@),
            Some(e) => if s > e || s < 1 || e > 4094 {
                Err("Invalid VLAN range"@)
            } else {
                Ok(id_range(s, e))
            },
        },
    }
}

/// An explicit list of ids; the first word that is not an id in 1..=4094 fails it.
pub open spec fn id_list(ws: Seq<Seq<char>>) -> Result<Seq<u16>, Seq<char>>
    decreases ws.len(),
{
    if ws.len() == 0 {
        Ok(seq![])
    } else {
        match id_list(ws.drop_last()) {
            Err(e) => Err(e),
            Ok(r) => match parse_unsigned(ws.last(), 65535) {
                None => Err("Invalid VLAN: "@ + ws.last()),
                Some(v) => if v < 1 || v > 4094 {
                    Err("VLAN "@ + dec(v) + " out of range (1-4094)"@)
                } else {
                    Ok(r.push(v as u16))
                },
            },
        }
    }
}

/// The ids that a batch text names: `"X to Y"`, `"X-Y"`, or a list separated by whitespace.
pub open spec fn vlan_range(s: Seq<char>) -> Result<Seq<u16>, Seq<char>> {
    let to = find(s, " to "@);
    let f = fields(s, '-');
    if to is Some && find_from(s, " to "@, to.unwrap() + 4) is None {
        range_of(trim(s.take(to.unwrap())), trim(after(s, (to.unwrap() + 4) as nat)))
    } else if contains_char(s, '-') && !contains_char(s, ' ') && f.len() == 2 {
        range_of(trim(f[0]), trim(f[1]))
    } else {
        id_list(words(s))
    }
}

fn parse_bound(t: &Vec<char>) -> (r: Option<u16>)
    ensures
        parse_unsigned(trim(t@), 65535) == match r {
            Some(v) => Some(v as nat),
            None => None::<nat>,
        },
{
    let tt = trim_chars(t);
    match parse_uint(&tt, 65535) {
        Some(v) => Some(v as u16),
        None => None,
    }
}

fn range_exec(a: &Vec<char>, b: &Vec<char>) -> (r: Result<Vec<u16>, String>)
    ensures
        match r {
            Ok(v) => range_of(trim(a@), trim(b@)) == Ok::<Seq<u16>, Seq<char>>(v@),
            Err(e) => range_of(trim(a@), trim(b@)) == Err::<Seq<u16>, Seq<char>>(e@),
        },
{
    let s = match parse_bound(a) {
        Some(s) => s,
        None => return Err(String::from_str("Invalid start VLAN")),
    };
    let e = match parse_bound(b) {
        Some(e) => e,
        None => return Err(String::from_str("Invalid end VLAN")),
    };
    if s > e || s < 1 || e > 4094 {
        return Err(String::from_str("Invalid VLAN range"));
    }
    let mut r: Vec<u16> = Vec::new();
    let mut k: u16 = s;
    while k <= e
        invariant
            1 <= s <= k <= e + 1,
            e <= 4094,
            r@.len() == k - s,
            forall|j: int| 0 <= j < r@.len() ==> r@[j] == s + j,
        decreases e + 1 - k,
    {
        r.push(k);
        k = k + 1;
    }
    assert(r@ =~= id_range(s as nat, e as nat));
    Ok(r)
}

/// Parses the ids of a `vlan batch` command: `"10 to 20"`, `"10-20"` or `"10 20 30"`.
pub fn parse_vlan_range(input: &Vec<char>) -> (r: Result<Vec<u16>, String>)
    ensures
        match r {
            Ok(v) => vlan_range(input@) == Ok::<Seq<u16>, Seq<char>>(v@),
            Err(e) => vlan_range(input@) == Err::<Seq<u16>, Seq<char>>(e@),
        },
{
    proof { reveal_strlit(" to "); }
    let n = input.len();
    match find_str(input, " to ") {
        Some(i) => {
            let rest = after_chars(input, i + 4);
            if find_str(&rest, " to ").is_none() {
                assert(find_from(input@, " to "@, i + 4) is None) by {
                    lemma_find_from_after(input@, " to "@, (i + 4) as int);
                }
                let head = copy_range(input, 0, i);
                assert(head@ == input@.take(i as int));
                return range_exec(&head, &rest);
            } else {
                assert(find_from(input@, " to "@, i + 4) is Some) by {
                    lemma_find_from_after(input@, " to "@, (i + 4) as int);
                }
            }
        },
        None => {},
    }
    if has_char(input, '-') && !has_char(input, ' ') {
        let f = split_char(input, '-');
        if f.len() == 2 {
            assert(views(f@)[0] == f@[0]@ && views(f@)[1] == f@[1]@);
            return range_exec(&f[0], &f[1]);
        }
    }
    let ws = split_ws(input);
    assert(vlan_range(input@) == id_list(words(input@)));
    let mut r: Vec<u16> = Vec::new();
    let mut i: usize = 0;
    while i < ws.len()
        invariant
            i <= ws@.len(),
            views(ws@) == words(input@),
            vlan_range(input@) == id_list(words(input@)),
            id_list(views(ws@).take(i as int)) == Ok::<Seq<u16>, Seq<char>>(r@),
        decreases ws.len() - i,
    {
        let ghost pre = views(ws@).take(i as int);
        let ghost cur = views(ws@).take(i + 1);
        assert(cur.drop_last() =~= pre);
        assert(cur.last() == ws@[i as int]@);
        match parse_uint(&ws[i], 65535) {
            None => {
                let mut e = String::from_str("Invalid VLAN: ");
                append_chars(&mut e, &ws[i]);
                assert(id_list(cur) == Err::<Seq<u16>, Seq<char>>(e@));
                proof { lemma_id_list_err_stays(views(ws@), i as int + 1); }
                return Err(e);
            },
            Some(v) => {
                if v < 1 || v > 4094 {
                    let mut e = String::from_str("VLAN ");
                    push_dec(&mut e, v);
                    append_str(&mut e, " out of range (1-4094)");
                    proof { lemma_id_list_err_stays(views(ws@), i as int + 1); }
                    return Err(e);
                }
                r.push(v as u16);
            },
        }
        i = i + 1;
    }
    assert(views(ws@).take(ws@.len() as int) =~= views(ws@));
    Ok(r)
}

/// Searching from `i` in `s` is searching in `s` without its first `i` characters, shifted.
proof fn lemma_find_from_after(s: Seq<char>, p: Seq<char>, i: int)
    requires
        0 <= i <= s.len(),
        p.len() > 0,
    ensures
        (find_from(s, p, i) is Some) == (find(after(s, i as nat), p) is Some),
    decreases s.len() - i,
{
    lemma_find_shift(s, p, i, 0);
}

proof fn lemma_find_shift(s: Seq<char>, p: Seq<char>, i: int, j: int)
    requires
        0 <= i <= s.len(),
        0 <= j,
        p.len() > 0,
    ensures
        (find_from(s, p, i + j) is Some) == (find_from(after(s, i as nat), p, j) is Some),
    decreases s.len() + 1 - (i + j),
{
    let t = after(s, i as nat);
    if i + j + p.len() > s.len() {
    } else {
        assert(t.subrange(j, j + p.len()) =~= s.subrange(i + j, i + j + p.len()));
        lemma_find_shift(s, p, i, j + 1);
    }
}

/// Once a prefix of the list fails, the whole list fails the same way.
proof fn lemma_id_list_err_stays(ws: Seq<Seq<char>>, k: int)
    requires
        0 <= k <= ws.len(),
        id_list(ws.take(k)) is Err,
    ensures
        id_list(ws) == id_list(ws.take(k)),
    decreases ws.len() - k,
{
    if k < ws.len() {
        assert(ws.take(k + 1).drop_last() =~= ws.take(k));
        lemma_id_list_err_stays(ws, k + 1);
    } else {
        assert(ws.take(k) =~= ws);
    }
}

/// What both range forms have in common: the two ends, read as numbers.
proof fn lemma_range_ends(a: nat, b: nat, sep: Seq<char>) -> (k: int)
    requires
        a <= 65535,
        b <= 65535,
        sep == " to "@ || sep == "-"@,
    ensures
        k == dec(a).len(),
        (dec(a) + sep + dec(b)).take(k) == dec(a),
        after(dec(a) + sep + dec(b), (k + sep.len()) as nat) == dec(b),
        trim(dec(a)) == dec(a),
        trim(dec(b)) == dec(b),
        parse_unsigned(dec(a), 65535) == Some(a),
        parse_unsigned(dec(b), 65535) == Some(b),
{
    lemma_parse_dec(a, 65535);
    lemma_parse_dec(b, 65535);
    let s = dec(a) + sep + dec(b);
    let k = dec(a).len() as int;
    assert(s.take(k) =~= dec(a));
    assert(after(s, (k + sep.len()) as nat) =~= dec(b));
    k
}

/// The ids `a..=b` come out the same whether the range is written `"a to b"`, `"a-b"`, or
/// as the list `"a a+1 ... b"`.
pub proof fn lemma_range_forms_agree(a: nat, b: nat)
    requires
        1 <= a <= b <= 4094,
    ensures
        vlan_range(dec(a) + " to "@ + dec(b)) == Ok::<Seq<u16>, Seq<char>>(id_range(a, b)),
        vlan_range(dec(a) + "-"@ + dec(b)) == Ok::<Seq<u16>, Seq<char>>(id_range(a, b)),
        vlan_range(id_list_text(Seq::new((b + 1 - a) as nat, |i: int| (a + i) as nat))) == Ok::<
            Seq<u16>,
            Seq<char>,
        >(id_range(a, b)),
{
    lemma_range_text_to(a, b);
    lemma_range_text_dash(a, b);
    let vs = Seq::new((b + 1 - a) as nat, |i: int| (a + i) as nat);
    lemma_id_list_form(vs);
    assert(vs.map_values(|v: nat| v as u16) =~= id_range(a, b));
}

/// A range whose start lies after its end is refused in both forms, and a batch command
/// that names it changes nothing.
pub proof fn lemma_range_reversed(a: nat, b: nat, d: NetworkDevice, e: NetworkDevice)
    requires
        b < a <= 65535,
        vlan_after(d, e, "vlan batch "@ + dec(a) + " to "@ + dec(b), CliView::SystemView),
    ensures
        vlan_range(dec(a) + " to "@ + dec(b)) == Err::<Seq<u16>, Seq<char>>("Invalid VLAN range"@),
        vlan_range(dec(a) + "-"@ + dec(b)) == Err::<Seq<u16>, Seq<char>>("Invalid VLAN range"@),
        e == d,
{
    lemma_range_text_to(a, b);
    lemma_range_text_dash(a, b);
    let t = dec(a) + " to "@ + dec(b);
    reveal_strlit(" to ");
    lemma_dec(a);
    lemma_dec(b);
    assert(t[0] == dec(a)[0] && is_digit(dec(a)[0]));
    assert(t.last() == dec(b).last() && is_digit(dec(b)[dec(b).len() - 1]));
    assert("vlan batch "@ + dec(a) + " to "@ + dec(b) =~= "vlan batch "@ + t);
    lemma_batch_command(d, t);
}

/// How the handler reads `vlan batch <t>` in system view, for a range text `t` that begins
/// and ends with a non-space: it is a batch command over `t` itself.
proof fn lemma_batch_command(d: NetworkDevice, t: Seq<char>)
    requires
        t.len() >= 1,
        !is_ws(t[0]),
        !is_ws(t.last()),
    ensures
        vlan_reply(d, "vlan batch "@ + t, CliView::SystemView) == match vlan_range(t) {
            Ok(vs) => Some(ok(dec((add_new(d.vlans@, vs).len() - d.vlans@.len()) as nat) + " VLANs created"@)),
            Err(e) => Some(fail("Error: "@ + e)),
        },
        forall|e: NetworkDevice| #[trigger] vlan_after(d, e, "vlan batch "@ + t, CliView::SystemView) == match vlan_range(t) {
            Ok(vs) => same_but_vlans(d, e) && sorted_version(add_new(d.vlans@, vs), e.vlans@),
            Err(_) => e == d,
        },
{
    let c = "vlan batch "@ + t;
    reveal_strlit("vlan batch ");
    reveal_strlit("batch");
    reveal_strlit("vlan ");
    reveal_strlit("display vlan");
    reveal_strlit("show vlan");
    reveal_strlit("show vlan brief");
    reveal_strlit("display vlan ");
    reveal_strlit("show vlan id ");
    assert(after(c, 11) =~= t);
    assert(trim_start(t) == t);
    assert(trim(t) == t);
    assert(c.subrange(5, 10) =~= "batch"@);
    lemma_find_skip(c, "batch"@, 0, 5);
    assert(contains(c, "batch"@));
    assert(c.take(11) =~= "vlan batch "@);
    assert(c.take(5) =~= "vlan "@);
    assert(c[0] == 'v');
    if c.len() >= 13 {
        assert(c.take(13)[0] == 'v');
    }
}

/// The three ways of writing the batch `a..=b` act alike on a device in system view:
/// `vlan batch a to b`, `vlan batch a-b` and `vlan batch a a+1 ... b` give the same reply and
/// leave the same sorted VLAN list, the old list with `a..=b` added.
pub proof fn lemma_batch_forms_agree(d: NetworkDevice, a: nat, b: nat)
    requires
        1 <= a <= b <= 4094,
    ensures
        ({
            let added = (add_new(d.vlans@, id_range(a, b)).len() - d.vlans@.len()) as nat;
            let reply = Some(ok(dec(added) + " VLANs created"@));
            let t1 = dec(a) + " to "@ + dec(b);
            let t2 = dec(a) + "-"@ + dec(b);
            let t3 = id_list_text(Seq::new((b + 1 - a) as nat, |i: int| (a + i) as nat));
            &&& vlan_reply(d, "vlan batch "@ + t1, CliView::SystemView) == reply
            &&& vlan_reply(d, "vlan batch "@ + t2, CliView::SystemView) == reply
            &&& vlan_reply(d, "vlan batch "@ + t3, CliView::SystemView) == reply
            &&& forall|e: NetworkDevice| #[trigger] vlan_after(d, e, "vlan batch "@ + t1, CliView::SystemView)
                == (same_but_vlans(d, e) && sorted_version(add_new(d.vlans@, id_range(a, b)), e.vlans@))
            &&& forall|e: NetworkDevice| #[trigger] vlan_after(d, e, "vlan batch "@ + t2, CliView::SystemView)
                == (same_but_vlans(d, e) && sorted_version(add_new(d.vlans@, id_range(a, b)), e.vlans@))
            &&& forall|e: NetworkDevice| #[trigger] vlan_after(d, e, "vlan batch "@ + t3, CliView::SystemView)
                == (same_but_vlans(d, e) && sorted_version(add_new(d.vlans@, id_range(a, b)), e.vlans@))
        }),
{
    lemma_range_forms_agree(a, b);
    lemma_dec(a);
    lemma_dec(b);
    reveal_strlit(" to ");
    reveal_strlit("-");
    let t1 = dec(a) + " to "@ + dec(b);
    let t2 = dec(a) + "-"@ + dec(b);
    let vs = Seq::new((b + 1 - a) as nat, |i: int| (a + i) as nat);
    let t3 = id_list_text(vs);
    assert(t1[0] == dec(a)[0] && t2[0] == dec(a)[0]);
    assert(is_digit(dec(a)[0]));
    assert(t1.last() == dec(b).last() && t2.last() == dec(b).last());
    assert(is_digit(dec(b)[dec(b).len() - 1]));
    lemma_id_list_text(vs);
    lemma_batch_command(d, t1);
    lemma_batch_command(d, t2);
    lemma_batch_command(d, t3);
}

proof fn lemma_range_text_to(a: nat, b: nat)
    requires
        a <= 65535,
        b <= 65535,
    ensures
        vlan_range(dec(a) + " to "@ + dec(b)) == range_of(dec(a), dec(b)),
        range_of(dec(a), dec(b)) == (if a > b || a < 1 || b > 4094 {
            Err::<Seq<u16>, Seq<char>>("Invalid VLAN range"@)
        } else {
            Ok(id_range(a, b))
        }),
{
    reveal_strlit(" to ");
    let p = " to "@;
    let s = dec(a) + p + dec(b);
    let k = lemma_range_ends(a, b, p);
    lemma_dec(a);
    lemma_dec(b);
    assert forall|i: int| 0 <= i < k implies s[i] != p[0] by {
        assert(s[i] == dec(a)[i]);
        assert(is_digit(dec(a)[i]));
    }
    lemma_find_skip(s, p, 0, k);
    assert(s.subrange(k, k + 4) =~= p);
    assert(find(s, p) == Some(k));
    assert forall|i: int| k + 4 <= i < s.len() implies s[i] != p[0] by {
        assert(s[i] == dec(b)[i - k - 4]);
        assert(is_digit(dec(b)[i - k - 4]));
    }
    lemma_find_none(s, p, k + 4);
}

proof fn lemma_range_text_dash(a: nat, b: nat)
    requires
        a <= 65535,
        b <= 65535,
    ensures
        vlan_range(dec(a) + "-"@ + dec(b)) == range_of(dec(a), dec(b)),
{
    reveal_strlit(" to ");
    reveal_strlit("-");
    let x = dec(a);
    let y = dec(b);
    let s = x + "-"@ + y;
    let k = lemma_range_ends(a, b, "-"@);
    lemma_dec(a);
    lemma_dec(b);
    assert forall|i: int| 0 <= i < s.len() implies s[i] != ' ' by {
        if i < k {
            assert(s[i] == x[i] && is_digit(x[i]));
        } else if i > k {
            assert(s[i] == y[i - k - 1] && is_digit(y[i - k - 1]));
        }
    }
    lemma_find_none(s, " to "@, 0);
    assert(s[k] == '-');
    assert(contains_char(s, '-'));
    assert(!contains_char(s, ' '));
    assert forall|i: int| 0 <= i < x.len() implies x[i] != '-' by {
        assert(is_digit(x[i]));
    }
    assert forall|i: int| 0 <= i < y.len() implies y[i] != '-' by {
        assert(is_digit(y[i]));
    }
    lemma_fields_append(seq![], x, '-');
    assert(seq![] + x =~= x);
    assert(fields(seq![], '-') =~= seq![seq![]]);
    assert(fields(x, '-') =~= seq![x]);
    let xs = x + "-"@;
    assert(xs.drop_last() =~= x);
    assert(xs.last() == '-');
    assert(fields(xs, '-') =~= seq![x, seq![]]);
    lemma_fields_append(xs, y, '-');
    assert(xs + y =~= s);
    assert(seq![] + y =~= y);
    assert(fields(s, '-') =~= seq![x, y]);
}

/// The ids written in decimal, separated by single spaces.
pub open spec fn id_list_text(vs: Seq<nat>) -> Seq<char>
    decreases vs.len(),
{
    if vs.len() == 0 {
        seq![]
    } else if vs.len() == 1 {
        dec(vs[0])
    } else {
        id_list_text(vs.drop_last()) + seq![' '] + dec(vs.last())
    }
}

/// The words of a list of ids are the ids in decimal, and the text holds only digits and spaces.
proof fn lemma_id_list_text(vs: Seq<nat>)
    requires
        vs.len() >= 1,
    ensures
        words(id_list_text(vs)) == vs.map_values(|v: nat| dec(v)),
        forall|i: int| 0 <= i < id_list_text(vs).len() ==> is_digit(#[trigger] id_list_text(vs)[i])
            || id_list_text(vs)[i] == ' ',
        is_digit(id_list_text(vs).last()),
        is_digit(id_list_text(vs)[0]),
    decreases vs.len(),
{
    lemma_dec(vs.last());
    let d = dec(vs.last());
    assert forall|i: int| 0 <= i < d.len() implies !is_ws(d[i]) by {
        assert(is_digit(d[i]));
    }
    assert(is_digit(d[d.len() - 1]));
    if vs.len() == 1 {
        lemma_words_append(seq![], d);
        assert(seq![] + d =~= d);
        assert(words(seq![]) =~= Seq::<Seq<char>>::empty());
        assert(vs.map_values(|v: nat| dec(v)) =~= seq![d]);
    } else {
        let p = vs.drop_last();
        lemma_id_list_text(p);
        let x = id_list_text(p);
        let xs = x + seq![' '];
        assert(xs =~= x.push(' '));
        lemma_words_space(x, ' ');
        lemma_words_append(xs, d);
        assert(id_list_text(vs) == xs + d);
        assert(vs.map_values(|v: nat| dec(v)) =~= p.map_values(|v: nat| dec(v)).push(d));
        let t = id_list_text(vs);
        assert forall|i: int| 0 <= i < t.len() implies is_digit(#[trigger] t[i]) || t[i] == ' ' by {
            if i < x.len() {
                assert(t[i] == x[i]);
            } else if i > x.len() {
                assert(t[i] == d[i - x.len() - 1]);
            }
        }
        assert(t.last() == d.last());
        assert(t[0] == x[0]);
    }
}

proof fn lemma_id_list_of_decs(vs: Seq<nat>)
    requires
        forall|i: int| 0 <= i < vs.len() ==> 1 <= #[trigger] vs[i] <= 4094,
    ensures
        id_list(vs.map_values(|v: nat| dec(v))) == Ok::<Seq<u16>, Seq<char>>(vs.map_values(|v: nat| v as u16)),
    decreases vs.len(),
{
    if vs.len() > 0 {
        let p = vs.drop_last();
        lemma_id_list_of_decs(p);
        lemma_parse_dec(vs.last(), 65535);
        assert(vs.map_values(|v: nat| dec(v)).drop_last() =~= p.map_values(|v: nat| dec(v)));
        assert(vs.map_values(|v: nat| v as u16) =~= p.map_values(|v: nat| v as u16).push(vs.last() as u16));
    } else {
        assert(vs.map_values(|v: nat| v as u16) =~= Seq::<u16>::empty());
    }
}

/// A space-separated list of ids in 1..=4094 names exactly those ids, in order; so
/// `"a a+1 ... b"` names the same ids as `"a to b"` and `"a-b"`.
pub proof fn lemma_id_list_form(vs: Seq<nat>)
    requires
        vs.len() >= 1,
        forall|i: int| 0 <= i < vs.len() ==> 1 <= #[trigger] vs[i] <= 4094,
    ensures
        vlan_range(id_list_text(vs)) == Ok::<Seq<u16>, Seq<char>>(vs.map_values(|v: nat| v as u16)),
{
    let s = id_list_text(vs);
    lemma_id_list_text(vs);
    reveal_strlit(" to ");
    assert forall|i: int| 0 <= i < s.len() implies s[i] != " to "@[1] by {
        assert(is_digit(s[i]) || s[i] == ' ');
    }
    lemma_find_none_at(s, " to "@, 0, 1);
    assert(!contains_char(s, '-')) by {
        assert forall|i: int| 0 <= i < s.len() implies s[i] != '-' by {
            assert(is_digit(s[i]) || s[i] == ' ');
        }
    }
    lemma_id_list_of_decs(vs);
}

/// A character of `"vlan "` followed by digits is never `b`.
proof fn lemma_create_text(n: nat)
    requires
        1 <= n <= 4094,
    ensures
        !(("vlan "@ + dec(n)) == "display vlan"@ || ("vlan "@ + dec(n)) == "show vlan"@ || ("vlan "@ + dec(n))
            == "show vlan brief"@),
        !(starts_with("vlan "@ + dec(n), "display vlan "@) || starts_with("vlan "@ + dec(n), "show vlan id "@)),
        starts_with("vlan "@ + dec(n), "vlan "@),
        !contains("vlan "@ + dec(n), "batch"@),
        parse_unsigned(trim(after("vlan "@ + dec(n), 5)), 65535) == Some(n),
{
    let c = "vlan "@ + dec(n);
    reveal_strlit("vlan ");
    reveal_strlit("display vlan");
    reveal_strlit("show vlan");
    reveal_strlit("show vlan brief");
    reveal_strlit("display vlan ");
    reveal_strlit("show vlan id ");
    reveal_strlit("batch");
    lemma_parse_dec(n, 65535);
    lemma_dec(n);
    assert(c[0] == 'v');
    if c.len() >= 13 {
        assert(c.take(13)[0] == 'v');
    }
    assert(c.take(5) =~= "vlan "@);
    assert(after(c, 5) =~= dec(n));
    assert forall|i: int| 0 <= i < c.len() implies c[i] != "batch"@[0] by {
        if i >= 5 {
            assert(c[i] == dec(n)[i - 5] && is_digit(dec(n)[i - 5]));
        }
    }
    lemma_find_none(c, "batch"@, 0);
}

/// Creating a VLAN twice is creating it once: the first `vlan n` lists `n` (once, where it
/// was not listed before), and the second leaves the device as the first left it.
pub proof fn lemma_vlan_create_idempotent(d0: NetworkDevice, d1: NetworkDevice, d2: NetworkDevice, n: nat)
    requires
        1 <= n <= 4094,
        vlan_after(d0, d1, "vlan "@ + dec(n), CliView::SystemView),
        vlan_after(d1, d2, "vlan "@ + dec(n), CliView::SystemView),
    ensures
        d1.vlans@.contains(n as u16),
        !d0.vlans@.contains(n as u16) ==> d1.vlans@.to_multiset().count(n as u16) == 1,
        d2 == d1,
        vlan_reply(d0, "vlan "@ + dec(n), CliView::SystemView) == Some(ok("VLAN "@ + dec(n) + " created"@)),
{
    broadcast use vstd::seq_lib::group_to_multiset_ensures;
    lemma_create_text(n);
    if !d0.vlans@.contains(n as u16) {
        let pushed = d0.vlans@.push(n as u16);
        assert(pushed.to_multiset() =~= d0.vlans@.to_multiset().insert(n as u16));
        assert(d0.vlans@.to_multiset().count(n as u16) == 0);
        assert(d1.vlans@.to_multiset().count(n as u16) == 1);
    }
}

/// VLAN 1 is never deleted: in system view, `undo vlan` / `no vlan` naming 1 fails and leaves
/// the device as it was.
pub proof fn lemma_vlan_one_kept(d: NetworkDevice, e: NetworkDevice, c: Seq<char>)
    requires
        starts_with(c, "undo vlan "@) || starts_with(c, "no vlan "@),
        parse_unsigned(last_word(c), 65535) == Some(1nat),
        vlan_after(d, e, c, CliView::SystemView),
    ensures
        vlan_reply(d, c, CliView::SystemView) == Some(fail("Error: Cannot delete VLAN 1 (default)"@)),
        e == d,
{
    reveal_strlit("undo vlan ");
    reveal_strlit("no vlan ");
    reveal_strlit("vlan ");
    reveal_strlit("vlan batch ");
    reveal_strlit("display vlan");
    reveal_strlit("show vlan");
    reveal_strlit("show vlan brief");
    reveal_strlit("display vlan ");
    reveal_strlit("show vlan id ");
    if starts_with(c, "undo vlan "@) {
        assert(c.take(10)[0] == c[0]);
    } else {
        assert(c.take(8)[0] == c[0]);
    }
    assert(c[0] == 'u' || c[0] == 'n');
    assert(c.take(5)[0] == c[0]);
    if c.len() >= 11 {
        assert(c.take(11)[0] == c[0]);
    }
    if c.len() >= 13 {
        assert(c.take(13)[0] == c[0]);
    }
}

/// Ascending order.
pub open spec fn sorted_ids(s: Seq<u16>) -> bool {
    forall|i: int, j: int| 0 <= i < j < s.len() ==> s[i] <= s[j]
}

/// `t` holds the ids of `s` in ascending order.
pub open spec fn sorted_version(s: Seq<u16>, t: Seq<u16>) -> bool {
    sorted_ids(t) && t.to_multiset() == s.to_multiset()
}

/// Relies on `slice::sort` on integers: the same elements, in ascending order.
#[verifier::external_body]
fn sort_ids(v: &mut Vec<u16>)
    ensures
        sorted_version(old(v)@, final(v)@),
{
    v.sort()
}

/// `cur` extended by the ids of `vs` that it lacks, each once, in order of first appearance.
pub open spec fn add_new(cur: Seq<u16>, vs: Seq<u16>) -> Seq<u16>
    decreases vs.len(),
{
    if vs.len() == 0 {
        cur
    } else {
        let c = add_new(cur, vs.drop_last());
        if c.contains(vs.last()) {
            c
        } else {
            c.push(vs.last())
        }
    }
}

/// The device is the same but for its VLAN list.
pub open spec fn same_but_vlans(a: NetworkDevice, b: NetworkDevice) -> bool {
    a.id == b.id && a.device_type == b.device_type && a.vendor == b.vendor && a.hostname == b.hostname
        && a.model == b.model && a.ports == b.ports && a.ospf_enabled == b.ospf_enabled
        && a.bgp_enabled == b.bgp_enabled && a.dhcp_enabled == b.dhcp_enabled
}

/// `i` is the first position of `x` in `s`.
pub open spec fn first_pos(s: Seq<u16>, x: u16, i: int) -> bool {
    0 <= i < s.len() && s[i] == x && forall|k: int| 0 <= k < i ==> s[k] != x
}

/// A row of the VLAN table.
pub open spec fn vlan_row(a: Seq<char>, b: Seq<char>, c: Seq<char>) -> Seq<char> {
    pad(a, 6) + seq![' '] + pad(b, 20) + seq![' '] + pad(c, 10)
}

/// The display name of VLAN `v`.
pub open spec fn vlan_name(v: nat) -> Seq<char> {
    "VLAN"@ + zero_pad(dec(v), 4)
}

/// One line per listed VLAN other than 1, each preceded by a line break.
pub open spec fn vlan_rows(vs: Seq<u16>) -> Seq<char>
    decreases vs.len(),
{
    if vs.len() == 0 {
        seq![]
    } else {
        vlan_rows(vs.drop_last()) + if vs.last() != 1 {
            seq!['\n'] + vlan_row(dec(vs.last() as nat), vlan_name(vs.last() as nat), "active"@)
        } else {
            seq![]
        }
    }
}

/// The VLAN table: VLAN 1 always, then the listed ones, then the count (at least 1).
pub open spec fn vlan_table(vs: Seq<u16>) -> Seq<char> {
    vlan_row("VLAN"@, "Name"@, "Status"@) + seq!['\n'] + repeat('-', 40) + seq!['\n'] + vlan_row(
        "1"@,
        "default"@,
        "active"@,
    ) + vlan_rows(vs) + "\n\nTotal VLANs: "@ + dec(if vs.len() > 1 { vs.len() } else { 1 })
}

/// Details of one VLAN.
pub open spec fn vlan_detail(v: nat) -> Seq<char> {
    "VLAN "@ + dec(v) + "\n  Name: VLAN"@ + zero_pad(dec(v), 4) + "\n  Status: active\n  Ports: (none assigned)"@
}

/// The reply of the VLAN handler; `None` where the command is not a VLAN command.
pub open spec fn vlan_reply(d: NetworkDevice, c: Seq<char>, v: CliView) -> Option<Reply> {
    if c == "display vlan"@ || c == "show vlan"@ || c == "show vlan brief"@ {
        Some(ok(vlan_table(d.vlans@)))
    } else if starts_with(c, "display vlan "@) || starts_with(c, "show vlan id "@) {
        match parse_unsigned(last_word(c), 65535) {
            Some(n) => if d.vlans@.contains(n as u16) || n == 1 {
                Some(ok(vlan_detail(n)))
            } else {
                Some(fail("Error: VLAN "@ + dec(n) + " not found"@))
            },
            None => Some(fail("Error: Invalid VLAN ID"@)),
        }
    } else if starts_with(c, "vlan "@) && !contains(c, "batch"@) {
        if v != CliView::SystemView {
            Some(fail(NEED_SYSTEM_VIEW@))
        } else {
            match parse_unsigned(trim(after(c, 5)), 65535) {
                Some(n) => if 1 <= n <= 4094 {
                    Some(ok("VLAN "@ + dec(n) + " created"@))
                } else {
                    Some(fail("Error: Invalid VLAN ID. Must be 1-4094."@))
                },
                None => Some(fail("Error: Invalid VLAN ID. Must be 1-4094."@)),
            }
        }
    } else if starts_with(c, "vlan batch "@) {
        if v != CliView::SystemView {
            Some(fail(NEED_SYSTEM_VIEW@))
        } else {
            match vlan_range(trim(after(c, 11))) {
                Ok(vs) => Some(ok(dec((add_new(d.vlans@, vs).len() - d.vlans@.len()) as nat) + " VLANs created"@)),
                Err(e) => Some(fail("Error: "@ + e)),
            }
        }
    } else if starts_with(c, "undo vlan "@) || starts_with(c, "no vlan "@) {
        if v != CliView::SystemView {
            Some(fail(NEED_SYSTEM_VIEW@))
        } else {
            match parse_unsigned(last_word(c), 65535) {
                Some(n) => if n == 1 {
                    Some(fail("Error: Cannot delete VLAN 1 (default)"@))
                } else if d.vlans@.contains(n as u16) {
                    Some(ok("VLAN "@ + dec(n) + " deleted"@))
                } else {
                    Some(fail("Error: VLAN "@ + dec(n) + " does not exist"@))
                },
                None => Some(fail("Error: Invalid VLAN ID"@)),
            }
        }
    } else if starts_with(c, "name "@) && v == CliView::SystemView {
        Some(ok("VLAN name set to '"@ + trim(after(c, 5)) + "'"@))
    } else {
        None
    }
}

/// How the VLAN handler changes the device: creation adds the id and sorts the list,
/// a batch adds the missing ids and sorts, deletion removes the first occurrence;
/// any other command leaves the device as it was.
pub open spec fn vlan_after(d: NetworkDevice, e: NetworkDevice, c: Seq<char>, v: CliView) -> bool {
    let create = !(c == "display vlan"@ || c == "show vlan"@ || c == "show vlan brief"@)
        && !(starts_with(c, "display vlan "@) || starts_with(c, "show vlan id "@))
        && starts_with(c, "vlan "@) && !contains(c, "batch"@) && v == CliView::SystemView;
    let batch = !(c == "display vlan"@ || c == "show vlan"@ || c == "show vlan brief"@)
        && !(starts_with(c, "display vlan "@) || starts_with(c, "show vlan id "@))
        && !(starts_with(c, "vlan "@) && !contains(c, "batch"@))
        && starts_with(c, "vlan batch "@) && v == CliView::SystemView;
    let delete = !(c == "display vlan"@ || c == "show vlan"@ || c == "show vlan brief"@)
        && !(starts_with(c, "display vlan "@) || starts_with(c, "show vlan id "@))
        && !(starts_with(c, "vlan "@) && !contains(c, "batch"@)) && !starts_with(c, "vlan batch "@)
        && (starts_with(c, "undo vlan "@) || starts_with(c, "no vlan "@)) && v == CliView::SystemView;
    let n = parse_unsigned(trim(after(c, 5)), 65535);
    let m = parse_unsigned(last_word(c), 65535);
    if create && n is Some && 1 <= n.unwrap() <= 4094 && !d.vlans@.contains(n.unwrap() as u16) {
        same_but_vlans(d, e) && sorted_version(d.vlans@.push(n.unwrap() as u16), e.vlans@)
    } else if batch && vlan_range(trim(after(c, 11))) is Ok {
        same_but_vlans(d, e) && sorted_version(add_new(d.vlans@, vlan_range(trim(after(c, 11)))->Ok_0), e.vlans@)
    } else if delete && m is Some && m.unwrap() != 1 && d.vlans@.contains(m.unwrap() as u16) {
        same_but_vlans(d, e) && exists|i: int| first_pos(d.vlans@, m.unwrap() as u16, i) && e.vlans@ == d.vlans@.remove(i)
    } else {
        e == d
    }
}

/// Appends a row of the VLAN table.
fn push_vlan_row(out: &mut String, a: &Vec<char>, b: &Vec<char>, c: &str)
    ensures
        final(out)@ == old(out)@ + vlan_row(a@, b@, c@),
{
    push_padded(out, a, 6);
    append_str(out, " ");
    push_padded(out, b, 20);
    append_str(out, " ");
    push_padded_str(out, c, 10);
    proof { reveal_strlit(" "); }
    assert(final(out)@ =~= old(out)@ + vlan_row(a@, b@, c@));
}

/// The display name of VLAN `v`.
fn vlan_name_chars(v: u16) -> (r: Vec<char>)
    ensures
        r@ == vlan_name(v as nat),
{
    let mut s = String::from_str("VLAN");
    let d = dec_chars(v as u64);
    push_zero_padded(&mut s, &d, 4);
    chars_of(s.as_str())
}

/// The VLAN table of a device.
pub fn generate_vlan_table(device: &NetworkDevice) -> (r: String)
    ensures
        r@ == vlan_table(device.vlans@),
{
    let mut out = String::new();
    push_vlan_row(&mut out, &chars_of("VLAN"), &chars_of("Name"), "Status");
    append_str(&mut out, "\n");
    push_repeat(&mut out, '-', 40);
    append_str(&mut out, "\n");
    push_vlan_row(&mut out, &chars_of("1"), &chars_of("default"), "active");
    proof { reveal_strlit("\n"); }
    let ghost head = out@;
    let mut i: usize = 0;
    while i < device.vlans.len()
        invariant
            i <= device.vlans@.len(),
            out@ == head + vlan_rows(device.vlans@.take(i as int)),
        decreases device.vlans.len() - i,
    {
        let v = device.vlans[i];
        let ghost pre = device.vlans@.take(i as int);
        assert(device.vlans@.take(i + 1).drop_last() =~= pre);
        assert(device.vlans@.take(i + 1).last() == v);
        proof { reveal_strlit("\n"); }
        if v != 1 {
            append_str(&mut out, "\n");
            push_vlan_row(&mut out, &dec_chars(v as u64), &vlan_name_chars(v), "active");
        }
        i = i + 1;
        assert(out@ =~= head + vlan_rows(device.vlans@.take(i as int)));
    }
    assert(device.vlans@.take(i as int) =~= device.vlans@);
    append_str(&mut out, "\n\nTotal VLANs: ");
    let n = device.vlans.len();
    push_dec(&mut out, if n > 1 { n as u64 } else { 1 });
    assert(out@ =~= vlan_table(device.vlans@));
    out
}

/// Handles VLAN commands; `None` where the command is not one of them.
pub fn handle_vlan_commands(device: &mut NetworkDevice, cmd: &str, current_view: &CliView) -> (r:
    Option<CommandResult>)
    ensures
        opt_reply(r) == vlan_reply(*old(device), cmd@, *current_view),
        vlan_after(*old(device), *final(device), cmd@, *current_view),
{
    let c = chars_of(cmd);
    let view = *current_view;
    if is_lit(&c, "display vlan") || is_lit(&c, "show vlan") || is_lit(&c, "show vlan brief") {
        return Some(CommandResult::success(generate_vlan_table(device)));
    }
    if has_prefix(&c, "display vlan ") || has_prefix(&c, "show vlan id ") {
        let n = parse_last_id(&c);
        return match n {
            Some(n) => {
                if contains_id(&device.vlans, n) || n == 1 {
                    let mut out = String::from_str("VLAN ");
                    push_dec(&mut out, n as u64);
                    append_str(&mut out, "\n  Name: VLAN");
                    push_zero_padded(&mut out, &dec_chars(n as u64), 4);
                    append_str(&mut out, "\n  Status: active\n  Ports: (none assigned)");
                    Some(CommandResult::success(out))
                } else {
                    let mut out = String::from_str("Error: VLAN ");
                    push_dec(&mut out, n as u64);
                    append_str(&mut out, " not found");
                    Some(CommandResult::error(out))
                }
            },
            None => Some(fail_lit("Error: Invalid VLAN ID")),
        };
    }
    if has_prefix(&c, "vlan ") && !has_sub(&c, "batch") {
        if view != CliView::SystemView {
            return Some(fail_lit(NEED_SYSTEM_VIEW));
        }
        let rest = trim_chars(&after_chars(&c, 5));
        return match parse_uint(&rest, 65535) {
            Some(n) => {
                if 1 <= n && n <= 4094 {
                    let id = n as u16;
                    if !contains_id(&device.vlans, id) {
                        device.vlans.push(id);
                        sort_ids(&mut device.vlans);
                    }
                    let mut out = String::from_str("VLAN ");
                    push_dec(&mut out, n);
                    append_str(&mut out, " created");
                    Some(CommandResult::success(out))
                } else {
                    Some(fail_lit("Error: Invalid VLAN ID. Must be 1-4094."))
                }
            },
            None => Some(fail_lit("Error: Invalid VLAN ID. Must be 1-4094.")),
        };
    }
    if has_prefix(&c, "vlan batch ") {
        if view != CliView::SystemView {
            return Some(fail_lit(NEED_SYSTEM_VIEW));
        }
        let rest = trim_chars(&after_chars(&c, 11));
        return match parse_vlan_range(&rest) {
            Ok(vs) => {
                let ghost start = device.vlans@;
                let mut added: u64 = 0;
                let mut i: usize = 0;
                while i < vs.len()
                    invariant
                        i <= vs@.len(),
                        same_but_vlans(*old(device), *device),
                        start == old(device).vlans@,
                        device.vlans@ == add_new(start, vs@.take(i as int)),
                        added == device.vlans@.len() - start.len(),
                        added <= i,
                    decreases vs.len() - i,
                {
                    assert(vs@.take(i + 1).drop_last() =~= vs@.take(i as int));
                    let x = vs[i];
                    if !contains_id(&device.vlans, x) {
                        device.vlans.push(x);
                        added = added + 1;
                    }
                    i = i + 1;
                }
                assert(vs@.take(i as int) =~= vs@);
                sort_ids(&mut device.vlans);
                let mut out = String::new();
                push_dec(&mut out, added);
                append_str(&mut out, " VLANs created");
                Some(CommandResult::success(out))
            },
            Err(e) => {
                let mut out = String::from_str("Error: ");
                append_str(&mut out, e.as_str());
                Some(CommandResult::error(out))
            },
        };
    }
    if has_prefix(&c, "undo vlan ") || has_prefix(&c, "no vlan ") {
        if view != CliView::SystemView {
            return Some(fail_lit(NEED_SYSTEM_VIEW));
        }
        return match parse_last_id(&c) {
            Some(n) => {
                if n == 1 {
                    return Some(fail_lit("Error: Cannot delete VLAN 1 (default)"));
                }
                match position_of(&device.vlans, n) {
                    Some(pos) => {
                        device.vlans.remove(pos);
                        let mut out = String::from_str("VLAN ");
                        push_dec(&mut out, n as u64);
                        append_str(&mut out, " deleted");
                        Some(CommandResult::success(out))
                    },
                    None => {
                        let mut out = String::from_str("Error: VLAN ");
                        push_dec(&mut out, n as u64);
                        append_str(&mut out, " does not exist");
                        Some(CommandResult::error(out))
                    },
                }
            },
            None => Some(fail_lit("Error: Invalid VLAN ID")),
        };
    }
    if has_prefix(&c, "name ") && view == CliView::SystemView {
        let name = trim_chars(&after_chars(&c, 5));
        let mut out = String::from_str("VLAN name set to '");
        append_chars(&mut out, &name);
        append_str(&mut out, "'");
        return Some(CommandResult::success(out));
    }
    None
}

/// The last word of `c` read as a 16-bit id.
fn parse_last_id(c: &Vec<char>) -> (r: Option<u16>)
    ensures
        parse_unsigned(last_word(c@), 65535) == match r {
            Some(v) => Some(v as nat),
            None => None::<nat>,
        },
{
    let ws = split_ws(c);
    if ws.len() == 0 {
        let e: Vec<char> = Vec::new();
        assert(e@ =~= last_word(c@));
        return match parse_uint(&e, 65535) {
            Some(v) => Some(v as u16),
            None => None,
        };
    }
    assert(views(ws@).last() == ws@[ws@.len() - 1]@);
    match parse_uint(&ws[ws.len() - 1], 65535) {
        Some(v) => Some(v as u16),
        None => None,
    }
}

/// Whether `x` is listed in `v`.
pub fn contains_id(v: &Vec<u16>, x: u16) -> (r: bool)
    ensures
        r == v@.contains(x),
{
    match position_of(v, x) {
        Some(_) => true,
        None => false,
    }
}

/// The first position of `x` in `v`.
pub fn position_of(v: &Vec<u16>, x: u16) -> (r: Option<usize>)
    ensures
        match r {
            Some(i) => first_pos(v@, x, i as int),
            None => !v@.contains(x),
        },
{
    let mut i: usize = 0;
    while i < v.len()
        invariant
            i <= v@.len(),
            forall|k: int| 0 <= k < i ==> v@[k] != x,
        decreases v.len() - i,
    {
        if v[i] == x {
            return Some(i);
        }
        i = i + 1;
    }
    None
}

} // verus!
