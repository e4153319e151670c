use vstd::prelude::*;

verus! {

/// Whether `c` has the Unicode `White_Space` property (the property that `char::is_whitespace`
/// tests): tab, line feed, vertical tab, form feed, carriage return, space, next line, no-break
/// space, ogham space mark, the spaces from en quad to hair space, line separator, paragraph
/// separator, narrow no-break space, medium mathematical space and ideographic space.
pub open spec fn is_whitespace_char(c: char) -> bool {
    let v = c as u32;
    ||| 0x09 <= v <= 0x0d
    ||| v == 0x20
    ||| v == 0x85
    ||| v == 0xa0
    ||| v == 0x1680
    ||| 0x2000 <= v <= 0x200a
    ||| v == 0x2028
    ||| v == 0x2029
    ||| v == 0x202f
    ||| v == 0x205f
    ||| v == 0x3000
}

/// Whether `c` is whitespace, as `char::is_whitespace` decides it.
pub fn is_whitespace(c: char) -> (b: bool)
    ensures
        b == is_whitespace_char(c),
{
    let v = c as u32;
    (0x09 <= v && v <= 0x0d) || v == 0x20 || v == 0x85 || v == 0xa0 || v == 0x1680 || (0x2000 <= v
        && v <= 0x200a) || v == 0x2028 || v == 0x2029 || v == 0x202f || v == 0x205f || v == 0x3000
}

/// Left-to-right scan of `s`: the tokens completed so far and the token being read.
pub open spec fn scan_tokens(s: Seq<char>) -> (Seq<Seq<char>>, Seq<char>)
    decreases s.len(),
{
    if s.len() == 0 {
        (seq![], seq![])
    } else {
        let (done, cur) = scan_tokens(s.drop_last());
        if is_whitespace_char(s.last()) {
            if cur.len() > 0 {
                (done.push(cur), seq![])
            } else {
                (done, seq![])
            }
        } else {
            (done, cur.push(s.last()))
        }
    }
}

/// The maximal runs of non-whitespace characters of `s`, in order.
pub open spec fn whitespace_tokens(s: Seq<char>) -> Seq<Seq<char>> {
    let (done, cur) = scan_tokens(s);
    if cur.len() > 0 {
        done.push(cur)
    } else {
        done
    }
}

/// The character sequences held by a vector of strings.
pub open spec fn string_views(v: Seq<String>) -> Seq<Seq<char>> {
    v.map_values(|t: String| t@)
}

/// `parts` joined by single spaces, as `[String]::join(" ")` produces it.
pub open spec fn join_with_spaces(parts: Seq<Seq<char>>) -> Seq<char>
    decreases parts.len(),
{
    if parts.len() == 0 {
        seq![]
    } else if parts.len() == 1 {
        parts[0]
    } else {
        join_with_spaces(parts.drop_last()) + seq![' '] + parts.last()
    }
}

/// Joining puts exactly one space between every two consecutive parts: no parts give the empty
/// text, one part is itself, and one more part adds a space and that part.
pub proof fn law_join_adds_one_space_per_part(parts: Seq<Seq<char>>, x: Seq<char>)
    ensures
        join_with_spaces(Seq::<Seq<char>>::empty()) == Seq::<char>::empty(),
        join_with_spaces(seq![x]) == x,
        parts.len() > 0 ==> join_with_spaces(parts.push(x)) == join_with_spaces(parts) + seq![' ']
            + x,
{
    assert(parts.push(x).drop_last() =~= parts);
}

/// Compares two string slices character by character.
pub fn str_equals(a: &str, b: &str) -> (r: bool)
    ensures
        r == (a@ == b@),
{
    let x = a.to_owned();
    let y = b.to_owned();
    x == y
}

/// Whether some string of `v` equals `s`.
pub fn contains_str(v: &Vec<String>, s: &str) -> (r: bool)
    ensures
        r == string_views(v@).contains(s@),
{
    let mut j: usize = 0;
    while j < v.len()
        invariant
            j <= v.len(),
            forall|k: int| 0 <= k < j ==> #[trigger] v@[k]@ != s@,
        decreases v.len() - j,
    {
        if str_equals(v[j].as_str(), s) {
            proof {
                assert(string_views(v@)[j as int] == s@);
            }
            return true;
        }
        j = j + 1;
    }
    proof {
        if string_views(v@).contains(s@) {
            let k = choose|k: int| 0 <= k < string_views(v@).len() && string_views(v@)[k] == s@;
            assert(v@[k]@ == s@);
        }
    }
    false
}

/// The decimal digits, in order of value.
pub open spec fn decimal_digits() -> Seq<char> {
    "0123456789"@
}

/// The decimal text of `n`, without leading zeros.
pub open spec fn decimal_text(n: nat) -> Seq<char>
    decreases n,
{
    if n < 10 {
        seq![decimal_digits()[n as int]]
    } else {
        decimal_text(n / 10) + seq![decimal_digits()[(n % 10) as int]]
    }
}

/// Formats `n` in decimal, as `u64::to_string` does.
pub fn format_decimal(n: u64) -> (text: String)
    ensures
        text@ == decimal_text(n as nat),
{
    let digits = "0123456789";
    proof {
        reveal_strlit("0123456789");
    }
    if n < 10 {
        let d = n as usize;
        return String::from_str(digits.substring_char(d, d + 1));
    }
    let mut rest: u64 = n;
    let mut text = String::new();
    while rest > 0
        invariant
            n >= 10,
            rest > 0 ==> decimal_text(n as nat) == decimal_text(rest as nat) + text@,
            rest == 0 ==> decimal_text(n as nat) == text@,
            digits@ == decimal_digits(),
            decimal_digits().len() == 10,
        decreases rest,
    {
        let d = (rest % 10) as usize;
        let digit = String::from_str(digits.substring_char(d, d + 1));
        assert(digit@ =~= seq![decimal_digits()[d as int]]);
        let ghost old_text = text@;
        text = digit.concat(text.as_str());
        let next = rest / 10;
        proof {
            if next > 0 {
                assert(decimal_text(rest as nat) == decimal_text(next as nat) + seq![
                    decimal_digits()[d as int],
                ]);
                assert(decimal_text(n as nat) =~= decimal_text(next as nat) + text@);
            } else {
                assert(decimal_text(rest as nat) == seq![decimal_digits()[d as int]]);
            }
        }
        rest = next;
    }
    text
}

/// A copy of `v`, string by string.
pub fn copy_strings(v: &Vec<String>) -> (r: Vec<String>)
    ensures
        string_views(r@) == string_views(v@),
{
    let mut r: Vec<String> = Vec::new();
    let mut i: usize = 0;
    while i < v.len()
        invariant
            i <= v.len(),
            string_views(r@) == string_views(v@).take(i as int),
        decreases v.len() - i,
    {
        let t = v[i].clone();
        let ghost before = r@;
        r.push(t);
        proof {
            assert(string_views(r@) =~= string_views(before).push(t@));
            assert(string_views(v@).take(i + 1) =~= string_views(v@).take(i as int).push(t@));
        }
        i = i + 1;
    }
    proof {
        assert(string_views(v@).take(v@.len() as int) =~= string_views(v@));
    }
    r
}

/// Joins `parts` with single spaces between them.
pub fn join_spaced(parts: &Vec<String>) -> (r: String)
    ensures
        r@ == join_with_spaces(string_views(parts@)),
{
    let mut r = String::new();
    let mut i: usize = 0;
    while i < parts.len()
        invariant
            i <= parts.len(),
            r@ == join_with_spaces(string_views(parts@).take(i as int)),
        decreases parts.len() - i,
    {
        proof {
            assert(string_views(parts@).take(i + 1).drop_last() =~= string_views(parts@).take(
                i as int,
            ));
            reveal_strlit(" ");
        }
        if i != 0 {
            r.append(" ");
        }
        r.append(parts[i].as_str());
        proof {
            if i == 0 {
                assert(r@ =~= string_views(parts@).take(1)[0]);
            }
        }
        i = i + 1;
    }
    proof {
        assert(string_views(parts@).take(parts@.len() as int) =~= string_views(parts@));
    }
    r
}

/// Whether `t` is a possible token: non-empty and free of whitespace.
pub open spec fn is_token(t: Seq<char>) -> bool {
    t.len() > 0 && forall|j: int| 0 <= j < t.len() ==> !is_whitespace_char(#[trigger] t[j])
}

proof fn lemma_scan_well_formed(s: Seq<char>)
    ensures
        forall|i: int| 0 <= i < scan_tokens(s).0.len() ==> is_token(#[trigger] scan_tokens(s).0[i]),
        forall|j: int|
            0 <= j < scan_tokens(s).1.len() ==> !is_whitespace_char(#[trigger] scan_tokens(s).1[j]),
    decreases s.len(),
{
    if s.len() > 0 {
        lemma_scan_well_formed(s.drop_last());
        let (done, cur) = scan_tokens(s.drop_last());
        if !is_whitespace_char(s.last()) {
            assert forall|j: int| 0 <= j < cur.push(s.last()).len() implies !is_whitespace_char(
                #[trigger] cur.push(s.last())[j],
            ) by {
                if j < cur.len() {
                    assert(cur.push(s.last())[j] == cur[j]);
                }
            }
        }
    }
}

/// Every token of a text is non-empty and holds no whitespace.
pub proof fn law_tokens_are_well_formed(s: Seq<char>)
    ensures
        forall|i: int| 0 <= i < whitespace_tokens(s).len() ==> is_token(#[trigger] whitespace_tokens(s)[i]),
{
    lemma_scan_well_formed(s);
}

proof fn lemma_scan_append(x: Seq<char>, y: Seq<char>)
    requires
        scan_tokens(x).1.len() == 0,
    ensures
        scan_tokens(x + y) == (scan_tokens(x).0 + scan_tokens(y).0, scan_tokens(y).1),
    decreases y.len(),
{
    if y.len() == 0 {
        assert(x + y =~= x);
        assert(scan_tokens(x).0 + scan_tokens(y).0 =~= scan_tokens(x).0);
        assert(scan_tokens(x).1 =~= seq![]);
    } else {
        lemma_scan_append(x, y.drop_last());
        assert((x + y).drop_last() =~= x + y.drop_last());
        assert((x + y).last() == y.last());
        let (dy, cy) = scan_tokens(y.drop_last());
        let dx = scan_tokens(x).0;
        if is_whitespace_char(y.last()) && cy.len() > 0 {
            assert((dx + dy).push(cy) =~= dx + dy.push(cy));
        }
    }
}

/// Splitting a text at a whitespace character and then into tokens gives the tokens of the
/// part before it followed by the tokens of the part after it.
pub proof fn law_tokens_split_at_whitespace(a: Seq<char>, w: char, b: Seq<char>)
    requires
        is_whitespace_char(w),
    ensures
        whitespace_tokens(a.push(w) + b) == whitespace_tokens(a) + whitespace_tokens(b),
{
    assert(a.push(w).drop_last() =~= a);
    lemma_scan_append(a.push(w), b);
    let (db, cb) = scan_tokens(b);
    let ta = whitespace_tokens(a);
    assert(scan_tokens(a.push(w)).0 == ta);
    if cb.len() > 0 {
        assert((ta + db).push(cb) =~= ta + db.push(cb));
    }
}

/// Splits `s` at whitespace, as `str::split_whitespace` does: the result is the maximal runs of
/// non-whitespace characters, in order.
pub fn split_whitespace(s: &str) -> (tokens: Vec<String>)
    ensures
        string_views(tokens@) == whitespace_tokens(s@),
{
    let n = s.unicode_len();
    let mut out: Vec<String> = Vec::new();
    let mut start: usize = 0;
    let mut i: usize = 0;
    while i < n
        invariant
            n == s@.len(),
            start <= i <= n,
            string_views(out@) == scan_tokens(s@.take(i as int)).0,
            scan_tokens(s@.take(i as int)).1 == s@.subrange(start as int, i as int),
        decreases n - i,
    {
        let c = s.get_char(i);
        proof {
            assert(s@.take(i + 1).drop_last() =~= s@.take(i as int));
            assert(s@.take(i + 1).last() == c);
        }
        if is_whitespace(c) {
            if start < i {
                let t = String::from_str(s.substring_char(start, i));
                let ghost before = out@;
                out.push(t);
                proof {
                    assert(string_views(out@) =~= string_views(before).push(t@));
                }
            }
            start = i + 1;
        } else {
            proof {
                assert(s@.subrange(start as int, i as int).push(c) =~= s@.subrange(
                    start as int,
                    i + 1,
                ));
            }
        }
        i = i + 1;
        proof {
            assert(s@.subrange(start as int, i as int).len() == 0 ==> s@.subrange(
                start as int,
                i as int,
            ) =~= seq![]);
        }
    }
    proof {
        assert(s@.take(n as int) =~= s@);
    }
    if start < n {
        let t = String::from_str(s.substring_char(start, n));
        let ghost before = out@;
        out.push(t);
        proof {
            assert(string_views(out@) =~= string_views(before).push(t@));
        }
    }
    out
}

} // verus!
