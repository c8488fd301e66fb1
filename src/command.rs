//! Command lines and environment blocks handed to the process-spawn call.

use vstd::prelude::*;
use vstd::utf8::encode_utf8;

use crate::types::{SessionCreateRequest, Shell};

verus! {

/// Text that starts the command line of a one-shot execution.
pub open spec fn exec_prefix(shell: Shell) -> Seq<char> {
    match shell {
        Shell::Cmd => "cmd.exe /c "@,
        Shell::Powershell => "powershell.exe -NoLogo -NoProfile -Command "@,
    }
}

/// An argument as it stands on the command line: wrapped in double quotes
/// when it holds a space.
pub open spec fn quoted_arg(arg: Seq<char>) -> Seq<char> {
    if arg.contains(' ') {
        seq!['"'] + arg + seq!['"']
    } else {
        arg
    }
}

/// The arguments, each preceded by one space.
pub open spec fn joined_args(args: Seq<String>) -> Seq<char>
    decreases args.len(),
{
    if args.len() == 0 {
        Seq::empty()
    } else {
        joined_args(args.drop_last()) + seq![' '] + quoted_arg(args.last()@)
    }
}

/// The command line of a one-shot execution.
pub open spec fn exec_command_line(command: Seq<char>, args: Seq<String>, shell: Shell) -> Seq<char> {
    exec_prefix(shell) + command + joined_args(args)
}

/// Whether `s` holds the character `c`.
pub fn str_contains_char(s: &str, c: char) -> (r: bool)
    ensures
        r == s@.contains(c),
{
    let n = s.unicode_len();
    let mut i: usize = 0;
    while i < n
        invariant
            n == s@.len(),
            i <= n,
            forall|j: int| 0 <= j < i ==> s@[j] != c,
        decreases n - i,
    {
        if s.get_char(i) == c {
            return true;
        }
        i = i + 1;
    }
    false
}

/// Builds the command line of a one-shot execution: the shell's prefix, the
/// command, then each argument after a space, quoted when it holds a space.
pub fn build_command_line(command: &str, args: &[String], shell: Shell) -> (r: String)
    ensures
        r@ == exec_command_line(command@, args@, shell),
{
    let mut cmd = match shell {
        Shell::Cmd => String::from_str("cmd.exe /c "),
        Shell::Powershell => String::from_str("powershell.exe -NoLogo -NoProfile -Command "),
    };
    cmd.append(command);
    proof {
        reveal_strlit(" ");
        reveal_strlit("\"");
        assert(args@.subrange(0, 0) =~= Seq::<String>::empty());
    }
    let mut i: usize = 0;
    while i < args.len()
        invariant
            i <= args@.len(),
            cmd@ == exec_prefix(shell) + command@ + joined_args(args@.subrange(0, i as int)),
        decreases args@.len() - i,
    {
        let arg = &args[i];
        let ghost before = cmd@;
        cmd.append(" ");
        if str_contains_char(arg.as_str(), ' ') {
            cmd.append("\"");
            cmd.append(arg.as_str());
            cmd.append("\"");
        } else {
            cmd.append(arg.as_str());
        }
        proof {
            reveal_strlit(" ");
            reveal_strlit("\"");
            let prev = args@.subrange(0, i as int);
            let next = args@.subrange(0, i + 1);
            assert(next.drop_last() =~= prev);
            assert(next.last() == args@[i as int]);
            assert(joined_args(next) == joined_args(prev) + seq![' '] + quoted_arg(arg@));
            assert(cmd@ =~= before + seq![' '] + quoted_arg(arg@));
        }
        i = i + 1;
    }
    proof {
        assert(args@.subrange(0, args@.len() as int) =~= args@);
    }
    cmd
}


/// The UTF-16 code units of one character.
pub open spec fn utf16_units(c: char) -> Seq<u16> {
    let v = c as u32;
    if v < 0x10000 {
        seq![v as u16]
    } else {
        seq![(0xD800 + (v - 0x10000) / 0x400) as u16, (0xDC00 + (v - 0x10000) % 0x400) as u16]
    }
}

/// The UTF-16 encoding of a character sequence.
pub open spec fn utf16_of(s: Seq<char>) -> Seq<u16>
    decreases s.len(),
{
    if s.len() == 0 {
        Seq::empty()
    } else {
        utf16_of(s.drop_last()) + utf16_units(s.last())
    }
}

/// The UTF-16 encoding of `s` followed by a terminating zero unit.
pub open spec fn wide_nul(s: Seq<char>) -> Seq<u16> {
    utf16_of(s).push(0u16)
}

/// Appends the UTF-16 encoding of `s` to `out`.
pub fn push_utf16(out: &mut Vec<u16>, s: &str)
    ensures
        final(out)@ == old(out)@ + utf16_of(s@),
{
    let n = s.unicode_len();
    let mut i: usize = 0;
    let ghost start = out@;
    proof {
        assert(s@.subrange(0, 0) =~= Seq::<char>::empty());
        assert(start + utf16_of(Seq::<char>::empty()) =~= start);
    }
    while i < n
        invariant
            n == s@.len(),
            i <= n,
            out@ == start + utf16_of(s@.subrange(0, i as int)),
        decreases n - i,
    {
        let c = s.get_char(i);
        let v = c as u32;
        if v < 0x10000 {
            out.push(v as u16);
        } else {
            let w = v - 0x10000;
            out.push((0xD800 + w / 0x400) as u16);
            out.push((0xDC00 + w % 0x400) as u16);
        }
        proof {
            let next = s@.subrange(0, i + 1);
            assert(next.drop_last() =~= s@.subrange(0, i as int));
            assert(next.last() == c);
            assert(out@ =~= start + utf16_of(next));
        }
        i = i + 1;
    }
    proof {
        assert(s@.subrange(0, n as int) =~= s@);
    }
}

/// Converts `s` to a zero-terminated sequence of UTF-16 code units, as the
/// process-spawn call takes its command line and working directory.
pub fn to_wide(s: &str) -> (r: Vec<u16>)
    ensures
        r@ == wide_nul(s@),
{
    let mut out: Vec<u16> = Vec::new();
    push_utf16(&mut out, s);
    out.push(0);
    proof {
        assert(Seq::<u16>::empty() + utf16_of(s@) =~= utf16_of(s@));
    }
    out
}


/// Lexicographic order on character sequences, comparing code points.
pub open spec fn text_le(a: Seq<char>, b: Seq<char>) -> bool
    decreases a.len(),
{
    if a.len() == 0 {
        true
    } else if b.len() == 0 {
        false
    } else if a[0] as u32 != b[0] as u32 {
        (a[0] as u32) < (b[0] as u32)
    } else {
        text_le(a.drop_first(), b.drop_first())
    }
}

/// The views of a sequence of strings.
pub open spec fn text_views(s: Seq<String>) -> Seq<Seq<char>> {
    s.map_values(|x: String| x@)
}

/// Whether the strings stand in lexicographic order.
pub open spec fn sorted_texts(s: Seq<String>) -> bool {
    forall|i: int, j: int| 0 <= i < j < s.len() ==> text_le(#[trigger] s[i]@, #[trigger] s[j]@)
}

proof fn lemma_text_le_total(a: Seq<char>, b: Seq<char>)
    ensures
        text_le(a, b) || text_le(b, a),
    decreases a.len(),
{
    if a.len() > 0 && b.len() > 0 && a[0] as u32 == b[0] as u32 {
        lemma_text_le_total(a.drop_first(), b.drop_first());
    }
}

proof fn lemma_text_le_trans(a: Seq<char>, b: Seq<char>, c: Seq<char>)
    requires
        text_le(a, b),
        text_le(b, c),
    ensures
        text_le(a, c),
    decreases a.len(),
{
    if a.len() > 0 && b.len() > 0 && c.len() > 0 && a[0] as u32 == b[0] as u32 && b[0] as u32 == c[0] as u32 {
        lemma_text_le_trans(a.drop_first(), b.drop_first(), c.drop_first());
    }
}

/// Compares two strings in lexicographic order.
pub fn str_text_le(a: &str, b: &str) -> (r: bool)
    ensures
        r == text_le(a@, b@),
{
    let na = a.unicode_len();
    let nb = b.unicode_len();
    let mut i: usize = 0;
    proof {
        assert(a@.skip(0) =~= a@);
        assert(b@.skip(0) =~= b@);
    }
    while i < na && i < nb
        invariant
            na == a@.len(),
            nb == b@.len(),
            i <= na,
            i <= nb,
            text_le(a@, b@) == text_le(a@.skip(i as int), b@.skip(i as int)),
        decreases na - i,
    {
        let ca = a.get_char(i);
        let cb = b.get_char(i);
        if ca as u32 != cb as u32 {
            return (ca as u32) < (cb as u32);
        }
        proof {
            assert(a@.skip(i as int).drop_first() =~= a@.skip(i + 1));
            assert(b@.skip(i as int).drop_first() =~= b@.skip(i + 1));
        }
        i = i + 1;
    }
    i == na
}

proof fn lemma_views_insert(s: Seq<String>, p: int, x: String)
    requires
        0 <= p <= s.len(),
    ensures
        text_views(s.insert(p, x)) =~= text_views(s).insert(p, x@),
        text_views(s.insert(p, x)).to_multiset() =~= text_views(s).to_multiset().insert(x@),
{
    let t = text_views(s.insert(p, x));
    assert(t.remove(p) =~= text_views(s));
    t.to_multiset_ensures();
}

/// Sorts strings lexicographically by insertion.
pub fn sort_texts(items: Vec<String>) -> (r: Vec<String>)
    ensures
        sorted_texts(r@),
        text_views(r@).to_multiset() == text_views(items@).to_multiset(),
{
    let mut out: Vec<String> = Vec::new();
    let mut i: usize = 0;
    proof {
        assert(text_views(out@) =~= text_views(items@.subrange(0, 0)));
    }
    while i < items.len()
        invariant
            i <= items@.len(),
            sorted_texts(out@),
            text_views(out@).to_multiset() == text_views(items@.subrange(0, i as int)).to_multiset(),
        decreases items@.len() - i,
    {
        let x = items[i].clone();
        let mut p: usize = 0;
        while p < out.len() && str_text_le(out[p].as_str(), x.as_str())
            invariant
                p <= out@.len(),
                forall|k: int| 0 <= k < p ==> text_le(#[trigger] out@[k]@, x@),
            decreases out@.len() - p,
        {
            p = p + 1;
        }
        proof {
            if p < out@.len() {
                lemma_text_le_total(out@[p as int]@, x@);
                assert forall|j: int| p <= j < out@.len() implies text_le(x@, #[trigger] out@[j]@) by {
                    if j > p {
                        lemma_text_le_trans(x@, out@[p as int]@, out@[j]@);
                    }
                }
            }
            lemma_views_insert(out@, p as int, x);
            let prev = items@.subrange(0, i as int);
            let next = items@.subrange(0, i + 1);
            assert(next =~= prev.push(items@[i as int]));
            assert(text_views(next) =~= text_views(prev).push(x@));
            text_views(prev).to_multiset_ensures();
        }
        let ghost old_out = out@;
        out.insert(p, x);
        proof {
            assert(out@ == old_out.insert(p as int, x));
            old_out.insert_ensures(p as int, x);
            assert forall|a: int, b: int| 0 <= a < b < out@.len() implies text_le(
                #[trigger] out@[a]@,
                #[trigger] out@[b]@,
            ) by {
                if b < p {
                } else if a < p && b == p {
                } else if a < p && b > p {
                    assert(out@[b] == old_out[b - 1]);
                } else if a == p {
                    assert(out@[b] == old_out[b - 1]);
                } else {
                    assert(out@[a] == old_out[a - 1]);
                    assert(out@[b] == old_out[b - 1]);
                }
            }
        }
        i = i + 1;
    }
    proof {
        assert(items@.subrange(0, items@.len() as int) =~= items@);
    }
    out
}


/// Whether an environment entry has a name other than `name`.
pub open spec fn name_differs(name: Seq<char>) -> spec_fn((String, String)) -> bool {
    |e: (String, String)| e.0@ != name
}

/// The environment after the overrides: for each override in turn, the
/// entries of that name are dropped and the override is appended, so a
/// later override wins over an earlier one and over the inherited entry.
pub open spec fn merged_env(inherited: Seq<(String, String)>, overrides: Seq<(String, String)>) -> Seq<(String, String)>
    decreases overrides.len(),
{
    if overrides.len() == 0 {
        inherited
    } else {
        let last = overrides.last();
        merged_env(inherited, overrides.drop_last()).filter(name_differs(last.0@)).push(last)
    }
}

/// Whether an environment entry has the name `name`.
pub open spec fn name_is(name: Seq<char>) -> spec_fn((String, String)) -> bool {
    |e: (String, String)| e.0@ == name
}

proof fn lemma_filter_empty(p: spec_fn((String, String)) -> bool)
    ensures
        Seq::<(String, String)>::empty().filter(p) == Seq::<(String, String)>::empty(),
{
    reveal(Seq::filter);
    assert(Seq::<(String, String)>::empty().filter(p) =~= Seq::<(String, String)>::empty());
}

proof fn lemma_dropped_name_gone(s: Seq<(String, String)>, k: Seq<char>)
    ensures
        s.filter(name_differs(k)).filter(name_is(k)) == Seq::<(String, String)>::empty(),
    decreases s.len(),
{
    if s.len() == 0 {
        lemma_filter_empty(name_differs(k));
        lemma_filter_empty(name_is(k));
    } else {
        let t = s.drop_last();
        let x = s.last();
        lemma_dropped_name_gone(t, k);
        assert(s =~= t.push(x));
        t.lemma_filter_push(x, name_differs(k));
        t.filter(name_differs(k)).lemma_filter_push(x, name_is(k));
    }
}

proof fn lemma_other_name_kept(s: Seq<(String, String)>, k: Seq<char>, l: Seq<char>)
    requires
        k != l,
    ensures
        s.filter(name_differs(l)).filter(name_is(k)) == s.filter(name_is(k)),
    decreases s.len(),
{
    if s.len() == 0 {
        lemma_filter_empty(name_differs(l));
        lemma_filter_empty(name_is(k));
    } else {
        let t = s.drop_last();
        let x = s.last();
        lemma_other_name_kept(t, k, l);
        assert(s =~= t.push(x));
        t.lemma_filter_push(x, name_differs(l));
        t.lemma_filter_push(x, name_is(k));
        t.filter(name_differs(l)).lemma_filter_push(x, name_is(k));
    }
}

/// Of every name that the overrides set, the merged environment holds
/// exactly one entry: the last override of that name.
pub proof fn lemma_last_override_wins(inherited: Seq<(String, String)>, overrides: Seq<(String, String)>, j: int)
    requires
        0 <= j < overrides.len(),
        forall|m: int| j < m < overrides.len() ==> (#[trigger] overrides[m]).0@ != overrides[j].0@,
    ensures
        merged_env(inherited, overrides).filter(name_is(overrides[j].0@)) == seq![overrides[j]],
    decreases overrides.len(),
{
    let k = overrides[j].0@;
    let last = overrides.last();
    let prev = merged_env(inherited, overrides.drop_last());
    prev.filter(name_differs(last.0@)).lemma_filter_push(last, name_is(k));
    if j == overrides.len() - 1 {
        lemma_dropped_name_gone(prev, k);
        assert(Seq::<(String, String)>::empty().push(last) =~= seq![overrides[j]]);
    } else {
        assert(overrides[overrides.len() - 1] == last);
        lemma_other_name_kept(prev, k, last.0@);
        let d = overrides.drop_last();
        assert forall|m: int| j < m < d.len() implies (#[trigger] d[m]).0@ != d[j].0@ by {
            assert(d[m] == overrides[m]);
        }
        lemma_last_override_wins(inherited, d, j);
    }
}

/// A name that no override sets keeps exactly its inherited entries.
pub proof fn lemma_unset_name_inherited(inherited: Seq<(String, String)>, overrides: Seq<(String, String)>, k: Seq<char>)
    requires
        forall|m: int| 0 <= m < overrides.len() ==> (#[trigger] overrides[m]).0@ != k,
    ensures
        merged_env(inherited, overrides).filter(name_is(k)) == inherited.filter(name_is(k)),
    decreases overrides.len(),
{
    if overrides.len() > 0 {
        let last = overrides.last();
        let prev = merged_env(inherited, overrides.drop_last());
        assert(overrides[overrides.len() - 1] == last);
        prev.filter(name_differs(last.0@)).lemma_filter_push(last, name_is(k));
        lemma_other_name_kept(prev, k, last.0@);
        let d = overrides.drop_last();
        assert forall|m: int| 0 <= m < d.len() implies (#[trigger] d[m]).0@ != k by {
            assert(d[m] == overrides[m]);
        }
        lemma_unset_name_inherited(inherited, d, k);
    }
}

/// The text `name=value` of an environment entry.
pub open spec fn entry_text(e: (String, String)) -> Seq<char> {
    e.0@ + seq!['='] + e.1@
}

/// The texts of environment entries.
pub open spec fn entry_texts(entries: Seq<(String, String)>) -> Seq<Seq<char>> {
    entries.map_values(|e: (String, String)| entry_text(e))
}

/// The zero-terminated UTF-16 encodings of the texts, one after another.
pub open spec fn wide_entries(texts: Seq<Seq<char>>) -> Seq<u16>
    decreases texts.len(),
{
    if texts.len() == 0 {
        Seq::empty()
    } else {
        wide_entries(texts.drop_last()) + wide_nul(texts.last())
    }
}

/// An environment block: each text zero-terminated, then one more zero.
pub open spec fn env_block(texts: Seq<Seq<char>>) -> Seq<u16> {
    wide_entries(texts).push(0u16)
}

/// Applies the overrides to the inherited entries, in order.
pub fn merge_environment(inherited: &Vec<(String, String)>, overrides: &Vec<(String, String)>) -> (r: Vec<(String, String)>)
    ensures
        r@ == merged_env(inherited@, overrides@),
{
    let mut cur: Vec<(String, String)> = Vec::new();
    let mut i: usize = 0;
    while i < inherited.len()
        invariant
            i <= inherited@.len(),
            cur@ == inherited@.subrange(0, i as int),
        decreases inherited@.len() - i,
    {
        let e = &inherited[i];
        cur.push((e.0.clone(), e.1.clone()));
        proof {
            assert(inherited@.subrange(0, i + 1) =~= inherited@.subrange(0, i as int).push(*e));
        }
        i = i + 1;
    }
    proof {
        assert(inherited@.subrange(0, inherited@.len() as int) =~= inherited@);
        assert(overrides@.subrange(0, 0) =~= Seq::<(String, String)>::empty());
    }
    let mut o: usize = 0;
    while o < overrides.len()
        invariant
            o <= overrides@.len(),
            cur@ == merged_env(inherited@, overrides@.subrange(0, o as int)),
        decreases overrides@.len() - o,
    {
        let ov = &overrides[o];
        let mut kept: Vec<(String, String)> = Vec::new();
        let mut j: usize = 0;
        proof {
            assert(cur@.subrange(0, 0) =~= Seq::<(String, String)>::empty());
            assert(Seq::<(String, String)>::empty().filter(name_differs(ov.0@)) =~= Seq::<(String, String)>::empty()) by {
                reveal(Seq::filter);
            }
        }
        while j < cur.len()
            invariant
                j <= cur@.len(),
                kept@ == cur@.subrange(0, j as int).filter(name_differs(ov.0@)),
            decreases cur@.len() - j,
        {
            let e = &cur[j];
            proof {
                assert(cur@.subrange(0, j + 1) =~= cur@.subrange(0, j as int).push(*e));
                cur@.subrange(0, j as int).lemma_filter_push(*e, name_differs(ov.0@));
            }
            if e.0 != ov.0 {
                kept.push((e.0.clone(), e.1.clone()));
            }
            j = j + 1;
        }
        kept.push((ov.0.clone(), ov.1.clone()));
        proof {
            assert(cur@.subrange(0, cur@.len() as int) =~= cur@);
            let next = overrides@.subrange(0, o + 1);
            assert(next.drop_last() =~= overrides@.subrange(0, o as int));
            assert(next.last() == *ov);
        }
        cur = kept;
        o = o + 1;
    }
    proof {
        assert(overrides@.subrange(0, overrides@.len() as int) =~= overrides@);
    }
    cur
}

/// Builds the environment block handed to the process-spawn call: the
/// inherited entries with the overrides applied, each written `name=value`,
/// sorted lexicographically, each zero-terminated in UTF-16, then one more
/// zero.
pub fn build_environment_block(inherited: &Vec<(String, String)>, overrides: &Vec<(String, String)>) -> (r: Vec<u16>)
    ensures
        exists|sorted: Seq<String>|
            {
                &&& sorted_texts(sorted)
                &&& text_views(sorted).to_multiset() == entry_texts(merged_env(inherited@, overrides@)).to_multiset()
                &&& r@ == env_block(text_views(sorted))
            },
{
    let merged = merge_environment(inherited, overrides);
    let mut texts: Vec<String> = Vec::new();
    let mut i: usize = 0;
    while i < merged.len()
        invariant
            i <= merged@.len(),
            text_views(texts@) == entry_texts(merged@.subrange(0, i as int)),
        decreases merged@.len() - i,
    {
        let e = &merged[i];
        let mut t = String::new();
        t.append(e.0.as_str());
        t.append("=");
        t.append(e.1.as_str());
        proof {
            reveal_strlit("=");
            assert(t@ =~= entry_text(*e));
        }
        let ghost old_texts = texts@;
        texts.push(t);
        proof {
            assert(merged@.subrange(0, i + 1) =~= merged@.subrange(0, i as int).push(*e));
            assert(text_views(texts@) =~= text_views(old_texts).push(entry_text(*e)));
            assert(entry_texts(merged@.subrange(0, i + 1)) =~= entry_texts(merged@.subrange(0, i as int)).push(entry_text(*e)));
        }
        i = i + 1;
    }
    proof {
        assert(merged@.subrange(0, merged@.len() as int) =~= merged@);
    }
    let sorted = sort_texts(texts);
    let mut block: Vec<u16> = Vec::new();
    let mut k: usize = 0;
    proof {
        assert(text_views(sorted@).subrange(0, 0) =~= Seq::<Seq<char>>::empty());
    }
    while k < sorted.len()
        invariant
            k <= sorted@.len(),
            block@ == wide_entries(text_views(sorted@).subrange(0, k as int)),
        decreases sorted@.len() - k,
    {
        push_utf16(&mut block, sorted[k].as_str());
        block.push(0);
        proof {
            let next = text_views(sorted@).subrange(0, k + 1);
            assert(next.drop_last() =~= text_views(sorted@).subrange(0, k as int));
            assert(block@ =~= wide_entries(next));
        }
        k = k + 1;
    }
    block.push(0);
    proof {
        assert(text_views(sorted@).subrange(0, sorted@.len() as int) =~= text_views(sorted@));
    }
    block
}


/// The command line of an interactive session's shell.
pub open spec fn session_command_text(shell: Shell) -> Seq<char> {
    match shell {
        Shell::Cmd => "cmd.exe"@,
        Shell::Powershell => "powershell.exe -NoLogo -NoProfile"@,
    }
}

/// Builds the command line of an interactive session's shell.
pub fn session_command_line(shell: Shell) -> (r: String)
    ensures
        r@ == session_command_text(shell),
{
    match shell {
        Shell::Cmd => String::from_str("cmd.exe"),
        Shell::Powershell => String::from_str("powershell.exe -NoLogo -NoProfile"),
    }
}

/// The line that switches a shell's console streams to UTF-8.
pub open spec fn utf8_init_text(shell: Shell) -> Seq<char> {
    match shell {
        Shell::Cmd => "chcp 65001\r\n"@,
        Shell::Powershell => "[Console]::InputEncoding=[Text.UTF8Encoding]::UTF8;[Console]::OutputEncoding=[Text.UTF8Encoding]::UTF8\r\n"@,
    }
}

/// The bytes that a session seeds its input with when UTF-8 is forced.
pub fn utf8_init_line(shell: Shell) -> (r: Vec<u8>)
    ensures
        r@ == encode_utf8(utf8_init_text(shell)),
{
    match shell {
        Shell::Cmd => "chcp 65001\r\n".as_bytes_vec(),
        Shell::Powershell => "[Console]::InputEncoding=[Text.UTF8Encoding]::UTF8;[Console]::OutputEncoding=[Text.UTF8Encoding]::UTF8\r\n".as_bytes_vec(),
    }
}


/// What a new session's input is seeded with before any user input: the
/// UTF-8 switch of its shell when the request forces UTF-8, else nothing.
pub fn init_input(req: &SessionCreateRequest) -> (r: Option<Vec<u8>>)
    ensures
        req.init.force_utf8 ==> (r matches Some(b) && b@ == encode_utf8(utf8_init_text(req.shell))),
        !req.init.force_utf8 ==> r is None,
{
    if req.init.force_utf8 {
        Some(utf8_init_line(req.shell))
    } else {
        None
    }
}

} // verus!
