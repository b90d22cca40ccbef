//! Reading the kernel's text interfaces: lists of numbers, the packet
//! counters of `/proc/net/dev`, pressure-stall averages and the GPU load.
use vstd::prelude::*;
use crate::game_turbo::states::trim_end_char;
use crate::text::{
    all_digits, chars_of, copy_range, digits_value, find_char, has_prefix, is_digit,
    lemma_find_char_bounds, parse_u32, parse_u32_spec, parse_u64, parse_u64_spec, split_by,
    split_chars, split_words, starts_with_chars, trim, trim_chars, words, lemma_digits_value_mono,
    lemma_digits_value_push,
};

verus! {

/// The words of `ws` that read as `u64`, in order; the others are skipped.
pub open spec fn parsed_u64s(ws: Seq<Seq<char>>) -> Seq<u64>
    decreases ws.len(),
{
    if ws.len() == 0 {
        Seq::empty()
    } else {
        let p = parsed_u64s(ws.drop_last());
        match parse_u64_spec(ws.last()) {
            Some(v) => p.push(v),
            None => p,
        }
    }
}

/// The words of `ws` that read as `u32`, in order; the others are skipped.
pub open spec fn parsed_u32s(ws: Seq<Seq<char>>) -> Seq<u32>
    decreases ws.len(),
{
    if ws.len() == 0 {
        Seq::empty()
    } else {
        let p = parsed_u32s(ws.drop_last());
        match parse_u32_spec(ws.last()) {
            Some(v) => p.push(v),
            None => p,
        }
    }
}

/// The whitespace-separated numbers of a text, such as a frequency table.
pub fn u64_list(text: &str) -> (r: Vec<u64>)
    ensures
        r@ == parsed_u64s(words(text@, true)),
{
    let ws = split_words(&chars_of(text), true);
    let ghost w = ws.deep_view();
    let mut out: Vec<u64> = Vec::new();
    let mut i: usize = 0;
    assert(w.take(0) =~= Seq::<Seq<char>>::empty());
    while i < ws.len()
        invariant
            0 <= i <= ws.len(),
            w == ws.deep_view(),
            w == words(text@, true),
            out@ == parsed_u64s(w.take(i as int)),
        decreases ws.len() - i,
    {
        assert(w.take(i + 1).drop_last() =~= w.take(i as int));
        assert(w.take(i + 1).last() == ws@[i as int]@);
        match parse_u64(&ws[i]) {
            Some(v) => out.push(v),
            None => {},
        }
        i = i + 1;
    }
    assert(w.take(ws.len() as int) =~= w);
    out
}

/// The whitespace-separated CPU numbers of a text, such as `affected_cpus`.
pub fn u32_list(text: &str) -> (r: Vec<u32>)
    ensures
        r@ == parsed_u32s(words(text@, true)),
{
    let ws = split_words(&chars_of(text), true);
    let ghost w = ws.deep_view();
    let mut out: Vec<u32> = Vec::new();
    let mut i: usize = 0;
    assert(w.take(0) =~= Seq::<Seq<char>>::empty());
    while i < ws.len()
        invariant
            0 <= i <= ws.len(),
            w == ws.deep_view(),
            w == words(text@, true),
            out@ == parsed_u32s(w.take(i as int)),
        decreases ws.len() - i,
    {
        assert(w.take(i + 1).drop_last() =~= w.take(i as int));
        assert(w.take(i + 1).last() == ws@[i as int]@);
        match parse_u32(&ws[i]) {
            Some(v) => out.push(v),
            None => {},
        }
        i = i + 1;
    }
    assert(w.take(ws.len() as int) =~= w);
    out
}

/// `a + b`, wrapping at 2^64.
pub open spec fn wrap_add(a: u64, b: u64) -> u64 {
    if a + b > u64::MAX {
        (a + b - 0x1_0000_0000_0000_0000) as u64
    } else {
        (a + b) as u64
    }
}

/// The interfaces whose packets count: `wlan0`, and those whose names start
/// with `rmnet` or `r_rmnet`.
pub open spec fn counted_iface(name: Seq<char>) -> bool {
    name == "wlan0"@ || has_prefix(name, "rmnet"@) || has_prefix(name, "r_rmnet"@)
}

/// The received packets a `/proc/net/dev` line contributes: its third word,
/// when the first word, without trailing colons, names a counted interface
/// and the third reads as a number.
pub open spec fn line_rx_packets(line: Seq<char>) -> Option<u64> {
    let ws = words(line, true);
    if ws.len() >= 3 && counted_iface(trim_end_char(ws[0], ':')) {
        parse_u64_spec(ws[2])
    } else {
        None
    }
}

/// The wrapping sum of what the lines contribute.
pub open spec fn rx_sum(lines: Seq<Seq<char>>) -> u64
    decreases lines.len(),
{
    if lines.len() == 0 {
        0
    } else {
        let p = rx_sum(lines.drop_last());
        match line_rx_packets(lines.last()) {
            Some(v) => wrap_add(p, v),
            None => p,
        }
    }
}

/// The received packets on WiFi and mobile interfaces in a `/proc/net/dev`
/// text, its two header lines skipped.
pub open spec fn rx_packets_spec(net_dev: Seq<char>) -> u64 {
    let lines = split_by(net_dev, '\n');
    if lines.len() <= 2 {
        0
    } else {
        rx_sum(lines.skip(2))
    }
}

fn line_rx_packets_exec(line: &Vec<char>) -> (r: Option<u64>)
    ensures
        r == line_rx_packets(line@),
{
    let ws = split_words(line, true);
    if ws.len() < 3 {
        return None;
    }
    let first = &ws[0];
    assert(ws.deep_view()[0] == first@);
    assert(ws.deep_view()[2] == ws@[2]@);
    let mut k: usize = first.len();
    assert(first@.take(k as int) =~= first@);
    while k > 0 && first[k - 1] == ':'
        invariant
            0 <= k <= first.len(),
            trim_end_char(first@, ':') == trim_end_char(first@.take(k as int), ':'),
        decreases k,
    {
        assert(first@.take(k as int).drop_last() =~= first@.take(k - 1));
        k = k - 1;
    }
    let name = copy_range(first, 0, k);
    assert(name@ =~= first@.take(k as int));
    assert(trim_end_char(name@, ':') == name@);
    let counted = crate::text::chars_equal(&name, &chars_of("wlan0")) || starts_with_chars(
        &name,
        &chars_of("rmnet"),
    ) || starts_with_chars(&name, &chars_of("r_rmnet"));
    if counted {
        parse_u64(&ws[2])
    } else {
        None
    }
}

/// The received packets on WiFi and mobile interfaces so far, from the text
/// of `/proc/net/dev`; the sum wraps at 2^64.
pub fn rx_packets_from(net_dev: &str) -> (r: u64)
    ensures
        r == rx_packets_spec(net_dev@),
{
    let lines = split_chars(&chars_of(net_dev), '\n');
    let ghost all = lines.deep_view();
    if lines.len() <= 2 {
        return 0;
    }
    let ghost ls = all.skip(2);
    let mut total: u64 = 0;
    let mut i: usize = 2;
    assert(ls.take(0) =~= Seq::<Seq<char>>::empty());
    while i < lines.len()
        invariant
            2 <= i <= lines.len(),
            all == lines.deep_view(),
            all == split_by(net_dev@, '\n'),
            ls == all.skip(2),
            total == rx_sum(ls.take(i - 2)),
        decreases lines.len() - i,
    {
        assert(ls.take(i - 1).drop_last() =~= ls.take(i - 2));
        assert(ls.take(i - 1).last() == lines@[i as int]@);
        match line_rx_packets_exec(&lines[i]) {
            Some(v) => {
                total = total.wrapping_add(v);
            },
            None => {},
        }
        i = i + 1;
    }
    assert(ls.take(lines.len() - 2) =~= ls);
    total
}

/// The value of a decimal digit.
pub open spec fn digit_value(c: char) -> int {
    (c as u32) - ('0' as u32)
}

/// The first two fraction digits as hundredths.
pub open spec fn frac2(fp: Seq<char>) -> int {
    (if fp.len() > 0 {
        digit_value(fp[0]) * 10
    } else {
        0
    }) + (if fp.len() > 1 {
        digit_value(fp[1])
    } else {
        0
    })
}

/// A plain decimal number (digits, optionally a point and more digits, at
/// least one digit in all) in hundredths, rounded half up on the third
/// fraction digit; `None` for any other text or a value beyond `i64`.
pub open spec fn hundredths_spec(s: Seq<char>) -> Option<i64> {
    let dot = find_char(s, '.');
    let ip = s.take(dot);
    let fp = if dot < s.len() {
        s.skip(dot + 1)
    } else {
        Seq::<char>::empty()
    };
    if ip.len() + fp.len() > 0 && all_digits(ip) && all_digits(fp) {
        let v = digits_value(ip) * 100 + frac2(fp) + (if fp.len() > 2 && fp[2] >= '5' {
            1int
        } else {
            0int
        });
        if v <= i64::MAX {
            Some(v as i64)
        } else {
            None
        }
    } else {
        None
    }
}

fn all_digits_exec(s: &Vec<char>, from: usize, to: usize) -> (r: bool)
    requires
        from <= to <= s.len(),
    ensures
        r == all_digits(s@.subrange(from as int, to as int)),
{
    let mut i = from;
    while i < to
        invariant
            from <= i <= to <= s.len(),
            forall|j: int| from <= j < i ==> is_digit(#[trigger] s@[j]),
        decreases to - i,
    {
        if !('0' <= s[i] && s[i] <= '9') {
            assert(s@.subrange(from as int, to as int)[i - from] == s@[i as int]);
            return false;
        }
        i = i + 1;
    }
    assert forall|j: int| 0 <= j < to - from implies is_digit(
        #[trigger] s@.subrange(from as int, to as int)[j],
    ) by {
        assert(s@.subrange(from as int, to as int)[j] == s@[from + j]);
    }
    true
}

/// Parses a plain decimal number into hundredths (see [`hundredths_spec`]).
pub fn parse_hundredths(s: &Vec<char>) -> (r: Option<i64>)
    ensures
        r == hundredths_spec(s@),
{
    proof {
        lemma_find_char_bounds(s@, '.');
    }
    let mut dot: usize = 0;
    while dot < s.len() && s[dot] != '.'
        invariant
            0 <= dot <= s.len(),
            forall|j: int| 0 <= j < dot ==> s@[j] != '.',
        decreases s.len() - dot,
    {
        dot = dot + 1;
    }
    proof {
        let f = find_char(s@, '.');
        if f < dot {
            assert(s@[f] == '.');
        }
        if dot < f {
            assert(s@[dot as int] == '.');
        }
        assert(f == dot);
    }
    let ghost ip = s@.take(dot as int);
    let fstart: usize = if dot < s.len() {
        dot + 1
    } else {
        s.len()
    };
    let ghost fp = s@.subrange(fstart as int, s.len() as int);
    assert(fp =~= (if dot < s.len() {
        s@.skip(dot + 1)
    } else {
        Seq::<char>::empty()
    }));
    assert(ip =~= s@.subrange(0, dot as int));
    if dot + (s.len() - fstart) == 0 {
        return None;
    }
    if !all_digits_exec(s, 0, dot) || !all_digits_exec(s, fstart, s.len()) {
        return None;
    }
    let mut value: u128 = 0;
    let mut i: usize = 0;
    while i < dot
        invariant
            0 <= i <= dot <= s.len(),
            ip == s@.take(dot as int),
            all_digits(ip),
            all_digits(fp),
            dot == find_char(s@, '.'),
            fp == s@.subrange(fstart as int, s.len() as int),
            fstart == (if dot < s.len() { dot + 1 } else { s.len() as int }),
            value == digits_value(ip.take(i as int)),
            value <= 92233720368547758,
        decreases dot - i,
    {
        let c = s[i];
        proof {
            assert(ip[i as int] == c);
            assert(ip.take(i + 1) =~= ip.take(i as int).push(c));
            lemma_digits_value_push(ip.take(i as int), c);
        }
        value = value * 10 + (c as u32 - '0' as u32) as u128;
        if value > 92233720368547758 {
            proof {
                lemma_digits_value_mono(ip, i + 1);
                let dv = digits_value(ip);
                assert(dv * 100 >= 92233720368547759 * 100) by (nonlinear_arith)
                    requires
                        dv >= 92233720368547759,
                ;
                if fp.len() > 0 {
                    assert(is_digit(fp[0]));
                }
                if fp.len() > 1 {
                    assert(is_digit(fp[1]));
                }
                assert(frac2(fp) >= 0);
                assert(dv * 100 + frac2(fp) > i64::MAX);
                assert(find_char(s@, '.') == dot);
            }
            return None;
        }
        i = i + 1;
    }
    assert(ip.take(dot as int) =~= ip);
    let flen = s.len() - fstart;
    let mut frac: u128 = 0;
    if flen > 0 {
        assert(fp[0] == s@[fstart as int]);
        frac = ((s[fstart] as u32 - '0' as u32) as u128) * 10;
    }
    if flen > 1 {
        assert(fp[1] == s@[fstart + 1]);
        frac = frac + (s[fstart + 1] as u32 - '0' as u32) as u128;
    }
    if flen > 2 {
        assert(fp[2] == s@[fstart + 2]);
        if s[fstart + 2] >= '5' {
            frac = frac + 1;
        }
    }
    let v = value * 100 + frac;
    if v > 0x7FFF_FFFF_FFFF_FFFF {
        return None;
    }
    Some(v as i64)
}

/// The last `avg10=` word among `ws`.
pub open spec fn last_avg10_word(ws: Seq<Seq<char>>) -> Option<Seq<char>>
    decreases ws.len(),
{
    if ws.len() == 0 {
        None
    } else if has_prefix(ws.last(), "avg10="@) {
        Some(ws.last())
    } else {
        last_avg10_word(ws.drop_last())
    }
}

proof fn lemma_last_avg10_word_prefix(ws: Seq<Seq<char>>)
    ensures
        last_avg10_word(ws) matches Some(f) ==> has_prefix(f, "avg10="@),
    decreases ws.len(),
{
    if ws.len() > 0 && !has_prefix(ws.last(), "avg10="@) {
        lemma_last_avg10_word_prefix(ws.drop_last());
    }
}

proof fn lemma_last_avg10_prefix(lines: Seq<Seq<char>>, kind: Seq<char>)
    ensures
        last_avg10(lines, kind) matches Some(f) ==> has_prefix(f, "avg10="@),
    decreases lines.len(),
{
    if lines.len() > 0 {
        lemma_last_avg10_word_prefix(words(lines.last(), true));
        lemma_last_avg10_prefix(lines.drop_last(), kind);
    }
}

/// The last `avg10=` word of the lines that start with `kind` and a space.
pub open spec fn last_avg10(lines: Seq<Seq<char>>, kind: Seq<char>) -> Option<Seq<char>>
    decreases lines.len(),
{
    if lines.len() == 0 {
        None
    } else {
        let here = if has_prefix(lines.last(), kind.push(' ')) {
            last_avg10_word(words(lines.last(), true))
        } else {
            None
        };
        match here {
            Some(f) => Some(f),
            None => last_avg10(lines.drop_last(), kind),
        }
    }
}

/// The ten-second average of a pressure-stall text (`/proc/pressure/*`) for
/// the `some` or `full` line, in hundredths of a percent: the value of the
/// last `avg10=` field of the lines of that kind.
pub open spec fn psi_avg10_spec(text: Seq<char>, kind: Seq<char>) -> Option<i64> {
    match last_avg10(split_by(text, '\n'), kind) {
        Some(f) => hundredths_spec(f.skip(6)),
        None => None,
    }
}

pub fn psi_avg10(text: &str, kind: &str) -> (r: Option<i64>)
    ensures
        r == psi_avg10_spec(text@, kind@),
{
    let lines = split_chars(&chars_of(text), '\n');
    let ghost ls = lines.deep_view();
    let mut prefix = chars_of(kind);
    prefix.push(' ');
    let avg = chars_of("avg10=");
    let mut found: Option<Vec<char>> = None;
    let mut i: usize = 0;
    assert(ls.take(0) =~= Seq::<Seq<char>>::empty());
    while i < lines.len()
        invariant
            0 <= i <= lines.len(),
            ls == lines.deep_view(),
            ls == split_by(text@, '\n'),
            prefix@ == kind@.push(' '),
            avg@ == "avg10="@,
            match found {
                Some(f) => last_avg10(ls.take(i as int), kind@) == Some(f@),
                None => last_avg10(ls.take(i as int), kind@).is_none(),
            },
        decreases lines.len() - i,
    {
        assert(ls.take(i + 1).drop_last() =~= ls.take(i as int));
        assert(ls.take(i + 1).last() == lines@[i as int]@);
        if starts_with_chars(&lines[i], &prefix) {
            let ws = split_words(&lines[i], true);
            let ghost w = ws.deep_view();
            let mut here: Option<usize> = None;
            let mut j: usize = 0;
            assert(w.take(0) =~= Seq::<Seq<char>>::empty());
            while j < ws.len()
                invariant
                    0 <= j <= ws.len(),
                    w == ws.deep_view(),
                    avg@ == "avg10="@,
                    match here {
                        Some(k) => k < j && last_avg10_word(w.take(j as int)) == Some(w[k as int]),
                        None => last_avg10_word(w.take(j as int)).is_none(),
                    },
                decreases ws.len() - j,
            {
                assert(w.take(j + 1).drop_last() =~= w.take(j as int));
                assert(w.take(j + 1).last() == ws@[j as int]@);
                if starts_with_chars(&ws[j], &avg) {
                    here = Some(j);
                }
                j = j + 1;
            }
            assert(w.take(ws.len() as int) =~= w);
            match here {
                Some(k) => {
                    assert(w[k as int] == ws@[k as int]@);
                    found = Some(copy_range(&ws[k], 0, ws[k].len()));
                    assert(found.unwrap()@ =~= ws@[k as int]@);
                },
                None => {},
            }
        }
        i = i + 1;
    }
    assert(ls.take(lines.len() as int) =~= ls);
    match found {
        Some(f) => {
            proof {
                lemma_last_avg10_prefix(ls, kind@);
                reveal_strlit("avg10=");
            }
            if f.len() < 6 {
                return None;
            }
            let rest = copy_range(&f, 6, f.len());
            assert(rest@ =~= f@.skip(6));
            parse_hundredths(&rest)
        },
        None => None,
    }
}

/// The GPU load in percent: `gpu_busy_percentage` (trimmed, trailing `%`
/// signs dropped) when it reads as a number, else `gpubusy` (trimmed) when
/// that does, else 0.
pub open spec fn gpu_busy_spec(primary: Option<Seq<char>>, fallback: Option<Seq<char>>) -> u32 {
    let p = match primary {
        Some(t) => parse_u32_spec(trim_end_char(trim(t), '%')),
        None => None,
    };
    match p {
        Some(v) => v,
        None => match fallback {
            Some(t) => match parse_u32_spec(trim(t)) {
                Some(v) => v,
                None => 0,
            },
            None => 0,
        },
    }
}

pub fn gpu_busy_from(primary: Option<&str>, fallback: Option<&str>) -> (r: u32)
    ensures
        r == gpu_busy_spec(
            match primary {
                Some(t) => Some(t@),
                None => None,
            },
            match fallback {
                Some(t) => Some(t@),
                None => None,
            },
        ),
{
    match primary {
        Some(t) => {
            let c = trim_chars(&chars_of(t));
            let mut k: usize = c.len();
            assert(c@.take(k as int) =~= c@);
            while k > 0 && c[k - 1] == '%'
                invariant
                    0 <= k <= c.len(),
                    trim_end_char(c@, '%') == trim_end_char(c@.take(k as int), '%'),
                decreases k,
            {
                assert(c@.take(k as int).drop_last() =~= c@.take(k - 1));
                k = k - 1;
            }
            let d = copy_range(&c, 0, k);
            assert(d@ =~= c@.take(k as int));
            match parse_u32(&d) {
                Some(v) => {
                    return v;
                },
                None => {},
            }
        },
        None => {},
    }
    match fallback {
        Some(t) => match parse_u32(&trim_chars(&chars_of(t))) {
            Some(v) => v,
            None => 0,
        },
        None => 0,
    }
}

} // verus!
