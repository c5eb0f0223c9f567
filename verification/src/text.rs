//! Characters, decimals, joining and searching: what the other modules build messages and
//! statements from.
use vstd::prelude::*;

verus! {

/// [`std::string::String::push`] appends one character at the end of the string.
pub assume_specification[ String::push ](s: &mut String, c: char)
    ensures
        final(s)@ == old(s)@.push(c),
;

/// The character of one decimal digit.
pub open spec fn digit_char(d: int) -> char {
    if d == 0 {
        '0'
    } else if d == 1 {
        '1'
    } else if d == 2 {
        '2'
    } else if d == 3 {
        '3'
    } else if d == 4 {
        '4'
    } else if d == 5 {
        '5'
    } else if d == 6 {
        '6'
    } else if d == 7 {
        '7'
    } else if d == 8 {
        '8'
    } else {
        '9'
    }
}

/// The decimal digits of a natural number, most significant first, without leading zeros.
pub open spec fn digits(n: nat) -> Seq<char>
    decreases n,
{
    if n < 10 {
        seq![digit_char(n as int)]
    } else {
        digits(n / 10).push(digit_char((n % 10) as int))
    }
}

/// The decimal text of an integer, with a leading minus sign where it is negative.
pub open spec fn decimal(n: int) -> Seq<char> {
    if n < 0 {
        seq!['-'] + digits((-n) as nat)
    } else {
        digits(n as nat)
    }
}

fn digit_to_char(d: u64) -> (c: char)
    requires
        d < 10,
    ensures
        c == digit_char(d as int),
{
    if d == 0 {
        '0'
    } else if d == 1 {
        '1'
    } else if d == 2 {
        '2'
    } else if d == 3 {
        '3'
    } else if d == 4 {
        '4'
    } else if d == 5 {
        '5'
    } else if d == 6 {
        '6'
    } else if d == 7 {
        '7'
    } else if d == 8 {
        '8'
    } else {
        '9'
    }
}

/// Appends the decimal digits of `n`.
pub fn push_digits(out: &mut String, n: u64)
    ensures
        final(out)@ == old(out)@ + digits(n as nat),
    decreases n,
{
    if n >= 10 {
        push_digits(out, n / 10);
    }
    out.push(digit_to_char(n % 10));
}

/// Appends the decimal text of `n`.
pub fn push_decimal(out: &mut String, n: i64)
    ensures
        final(out)@ == old(out)@ + decimal(n as int),
{
    if n < 0 {
        out.push('-');
        let magnitude: u64 = if n == i64::MIN {
            9223372036854775808u64
        } else {
            (-n) as u64
        };
        push_digits(out, magnitude);
    } else {
        push_digits(out, n as u64);
    }
}

/// `needle` stands somewhere in `hay` as a run of consecutive elements.
pub open spec fn contains(hay: Seq<char>, needle: Seq<char>) -> bool {
    exists|at: int| #[trigger] occurs_at(hay, needle, at)
}

/// `needle` stands in `hay` from position `at` on.
pub open spec fn occurs_at(hay: Seq<char>, needle: Seq<char>, at: int) -> bool {
    &&& 0 <= at
    &&& at + needle.len() <= hay.len()
    &&& hay.subrange(at, at + needle.len()) == needle
}

/// The characters of a string, one by one.
pub fn to_chars(s: &str) -> (r: Vec<char>)
    ensures
        r@ == s@,
{
    let mut r: Vec<char> = Vec::new();
    for c in it: s.chars()
        invariant
            r@ == s@.take(it.index() as int),
            it.seq() == s@,
    {
        r.push(c);
    }
    r
}

/// One text in front of another.
pub fn prefixed(prefix: &str, rest: &str) -> (r: String)
    ensures
        r@ == prefix@ + rest@,
{
    let mut r = String::new();
    r.append(prefix);
    r.append(rest);
    r
}

/// Whether two strings hold the same characters.
pub fn str_eq(a: &str, b: &str) -> (r: bool)
    ensures
        r == (a@ == b@),
{
    let x = to_chars(a);
    let y = to_chars(b);
    if x.len() != y.len() {
        return false;
    }
    let mut i: usize = 0;
    while i < x.len()
        invariant
            x@ == a@,
            y@ == b@,
            x.len() == y.len(),
            i <= x.len(),
            forall|j: int| 0 <= j < i ==> x@[j] == y@[j],
        decreases x.len() - i,
    {
        if x[i] != y[i] {
            assert(a@[i as int] != b@[i as int]);
            return false;
        }
        i += 1;
    }
    assert(a@ =~= b@);
    true
}

/// Whether `needle` stands in `hay` from position `at` on.
fn chars_occur_at(hay: &Vec<char>, needle: &Vec<char>, at: usize) -> (r: bool)
    requires
        at + needle.len() <= hay.len(),
    ensures
        r == occurs_at(hay@, needle@, at as int),
{
    let mut i: usize = 0;
    while i < needle.len()
        invariant
            at + needle.len() <= hay.len(),
            i <= needle.len(),
            forall|j: int| 0 <= j < i ==> hay@[at + j] == needle@[j],
        decreases needle.len() - i,
    {
        if hay[at + i] != needle[i] {
            assert(hay@.subrange(at as int, at + needle.len())[i as int] != needle@[i as int]);
            return false;
        }
        i += 1;
    }
    assert(hay@.subrange(at as int, at + needle.len()) =~= needle@);
    true
}

/// Whether `needle` stands somewhere in `hay`.
pub fn str_contains(hay: &str, needle: &str) -> (r: bool)
    ensures
        r == contains(hay@, needle@),
{
    let h = to_chars(hay);
    let n = to_chars(needle);
    if n.len() > h.len() {
        return false;
    }
    let last: usize = h.len() - n.len();
    let mut i: usize = 0;
    while i < last
        invariant
            h@ == hay@,
            n@ == needle@,
            last + n.len() == h.len(),
            i <= last,
            forall|at: int| 0 <= at < i ==> !occurs_at(h@, n@, at),
        decreases last - i,
    {
        if chars_occur_at(&h, &n, i) {
            return true;
        }
        i += 1;
    }
    chars_occur_at(&h, &n, last)
}

/// The pieces one after another, with `sep` between each two of them.
pub open spec fn joined(parts: Seq<Seq<char>>, sep: Seq<char>) -> Seq<char>
    decreases parts.len(),
{
    if parts.len() == 0 {
        Seq::empty()
    } else if parts.len() == 1 {
        parts[0]
    } else {
        joined(parts.drop_last(), sep) + sep + parts.last()
    }
}

/// What each of the strings holds.
pub open spec fn views(parts: Seq<String>) -> Seq<Seq<char>> {
    Seq::new(parts.len(), |i: int| parts[i]@)
}

/// Joins the pieces, with `sep` between each two of them.
pub fn join(parts: &Vec<String>, sep: &str) -> (r: String)
    ensures
        r@ == joined(views(parts@), sep@),
{
    let mut r = String::new();
    let mut i: usize = 0;
    while i < parts.len()
        invariant
            i <= parts.len(),
            r@ == joined(views(parts@).take(i as int), sep@),
        decreases parts.len() - i,
    {
        if i > 0 {
            r.append(sep);
        }
        r.append(parts[i].as_str());
        proof {
            let now = views(parts@).take(i + 1);
            assert(now.drop_last() =~= views(parts@).take(i as int));
            assert(now.last() == parts@[i as int]@);
        }
        i += 1;
    }
    assert(views(parts@).take(i as int) =~= views(parts@));
    r
}

/// `s` with every occurrence of `from` that a scan from the left meets, without overlap,
/// replaced by `to`.
pub open spec fn replaced(s: Seq<char>, from: Seq<char>, to: Seq<char>) -> Seq<char>
    decreases s.len(),
{
    if from.len() == 0 || s.len() < from.len() {
        s
    } else if s.take(from.len() as int) == from {
        to + replaced(s.skip(from.len() as int), from, to)
    } else {
        seq![s[0]] + replaced(s.skip(1), from, to)
    }
}

/// Replaces every occurrence of `from`, scanning from the left, by `to`.
pub fn replace_all(s: &str, from: &str, to: &str) -> (r: String)
    requires
        from@.len() > 0,
    ensures
        r@ == replaced(s@, from@, to@),
{
    let chars = to_chars(s);
    let pattern = to_chars(from);
    let mut r = String::new();
    let mut i: usize = 0;
    assert(chars@.skip(0) =~= chars@);
    while i < chars.len()
        invariant
            chars@ == s@,
            pattern@ == from@,
            pattern@.len() > 0,
            i <= chars.len(),
            r@ + replaced(chars@.skip(i as int), from@, to@) == replaced(s@, from@, to@),
        decreases chars.len() - i,
    {
        let ghost rest = chars@.skip(i as int);
        let ghost before = r@;
        if pattern.len() <= chars.len() - i && chars_occur_at(&chars, &pattern, i) {
            r.append(to);
            proof {
                assert(rest.take(from@.len() as int) =~= chars@.subrange(
                    i as int,
                    i + from@.len(),
                ));
                assert(rest.skip(from@.len() as int) =~= chars@.skip(i + from@.len()));
                assert(replaced(rest, from@, to@) == to@ + replaced(
                    chars@.skip(i + from@.len()),
                    from@,
                    to@,
                ));
                assert(before + (to@ + replaced(chars@.skip(i + from@.len()), from@, to@)) =~= r@
                    + replaced(chars@.skip(i + from@.len()), from@, to@));
            }
            i += pattern.len();
        } else {
            r.push(chars[i]);
            proof {
                let tail = chars@.skip(i + 1);
                assert(rest.skip(1) =~= tail);
                if rest.len() >= from@.len() {
                    assert(rest.take(from@.len() as int) =~= chars@.subrange(
                        i as int,
                        i + from@.len(),
                    ));
                    assert(replaced(rest, from@, to@) == seq![rest[0]] + replaced(tail, from@, to@));
                } else {
                    assert(replaced(rest, from@, to@) == rest);
                    assert(replaced(tail, from@, to@) == tail);
                    assert(rest =~= seq![rest[0]] + tail);
                }
                assert(before + (seq![rest[0]] + replaced(tail, from@, to@)) =~= r@ + replaced(
                    tail,
                    from@,
                    to@,
                ));
            }
            i += 1;
        }
    }
    assert(chars@.skip(i as int) =~= Seq::<char>::empty());
    assert(r@ + Seq::<char>::empty() =~= r@);
    r
}

/// A text with others in front of it and behind it.
pub open spec fn framed(front: Seq<char>, text: Seq<char>, back: Seq<char>) -> Seq<char> {
    front + text + back
}

/// One text stands somewhere in another: with something in front of it and something behind it,
/// it is the other one.
pub open spec fn stands_in(needle: Seq<char>, hay: Seq<char>) -> bool {
    exists|front: Seq<char>, back: Seq<char>| hay == #[trigger] framed(front, needle, back)
}

/// A text is found in another exactly where it stands in it, with something in front and
/// something behind, both of which may be empty.
pub proof fn law_occurrences_have_a_front_and_a_back(hay: Seq<char>, needle: Seq<char>)
    ensures
        contains(hay, needle) <==> stands_in(needle, hay),
{
    if contains(hay, needle) {
        let at = choose|at: int| #[trigger] occurs_at(hay, needle, at);
        let front = hay.take(at);
        let back = hay.skip(at + needle.len());
        assert(hay =~= framed(front, hay.subrange(at, at + needle.len()), back));
        assert(hay == framed(front, needle, back));
    }
    if stands_in(needle, hay) {
        let (front, back) = choose|front: Seq<char>, back: Seq<char>|
            hay == #[trigger] framed(front, needle, back);
        let at = front.len() as int;
        assert(hay.subrange(at, at + needle.len()) =~= needle);
        assert(occurs_at(hay, needle, at));
    }
}

/// Searching a text tells whether another one stands in it.
pub proof fn law_searching_finds_what_stands_there(hay: &str, needle: &str, r: bool)
    requires
        call_ensures(str_contains, (hay, needle), r),
    ensures
        r <==> stands_in(needle@, hay@),
{
    law_occurrences_have_a_front_and_a_back(hay@, needle@);
}

/// Joining no texts gives none, joining one gives that one, and one more text comes behind a
/// separator.
pub proof fn law_joining_puts_separators_between(
    parts: Vec<String>,
    more: Vec<String>,
    sep: &str,
    r: String,
    longer: String,
)
    requires
        more@.len() == parts@.len() + 1,
        forall|i: int| 0 <= i < parts@.len() ==> #[trigger] more@[i]@ == parts@[i]@,
        call_ensures(join, (&parts, sep), r),
        call_ensures(join, (&more, sep), longer),
    ensures
        parts@.len() == 0 ==> r@.len() == 0 && longer@ == more@[0]@,
        parts@.len() > 0 ==> longer@ == r@ + sep@ + more@.last()@,
{
    assert(views(more@).drop_last() =~= views(parts@));
    assert(views(more@).last() == more@.last()@);
}

/// Replacing goes from the left: where a text is found first, what stands in front of it stays,
/// the replacement takes its place, and what stands behind it is treated likewise. A text that is
/// not found leaves everything as it is.
pub proof fn law_replacing_goes_from_the_left(
    front: Seq<char>,
    from: Seq<char>,
    back: Seq<char>,
    to: Seq<char>,
)
    requires
        from.len() > 0,
        forall|i: int|
            0 <= i < front.len() ==> (#[trigger] (front + from + back).subrange(
                i,
                i + from.len(),
            )) != from,
    ensures
        replaced(front + from + back, from, to) == front + to + replaced(back, from, to),
    decreases front.len(),
{
    let s = front + from + back;
    let rest = replaced(back, from, to);
    if front.len() == 0 {
        assert(s.take(from.len() as int) =~= from);
        assert(s.skip(from.len() as int) =~= back);
        assert(front + to + rest =~= to + rest);
    } else {
        let tail = front.skip(1);
        assert(s.skip(1) =~= tail + from + back);
        assert(s.take(from.len() as int) =~= s.subrange(0int, 0int + from.len()));
        assert forall|i: int| 0 <= i < tail.len() implies (#[trigger] (tail + from + back).subrange(
            i,
            i + from.len(),
        )) != from by {
            assert((tail + from + back).subrange(i, i + from.len()) =~= s.subrange(
                i + 1,
                i + 1 + from.len(),
            ));
        }
        law_replacing_goes_from_the_left(tail, from, back, to);
        assert(s[0] == front[0]);
        assert(seq![s[0]] + (tail + to + rest) =~= front + to + rest);
    }
}

/// Replacing a text that is not found leaves everything as it is.
pub proof fn law_nothing_found_is_nothing_replaced(s: Seq<char>, from: Seq<char>, to: Seq<char>)
    requires
        !stands_in(from, s),
    ensures
        replaced(s, from, to) == s,
    decreases s.len(),
{
    if from.len() > 0 && s.len() >= from.len() {
        if s.take(from.len() as int) == from {
            assert(s =~= framed(Seq::empty(), from, s.skip(from.len() as int)));
        }
        if stands_in(from, s.skip(1)) {
            let (front, back) = choose|front: Seq<char>, back: Seq<char>|
                s.skip(1) == #[trigger] framed(front, from, back);
            assert(s =~= seq![s[0]] + s.skip(1));
            assert(seq![s[0]] + framed(front, from, back) =~= framed(
                seq![s[0]] + front,
                from,
                back,
            ));
        }
        law_nothing_found_is_nothing_replaced(s.skip(1), from, to);
        assert(seq![s[0]] + s.skip(1) =~= s);
    }
}

/// Two texts are taken for equal exactly where they have the same characters.
pub proof fn law_equal_texts_have_the_same_characters(a: &str, b: &str, r: bool)
    requires
        call_ensures(str_eq, (a, b), r),
    ensures
        r <==> a@.len() == b@.len() && forall|i: int| 0 <= i < a@.len() ==> a@[i] == b@[i],
{
    if a@.len() == b@.len() && forall|i: int| 0 <= i < a@.len() ==> a@[i] == b@[i] {
        assert(a@ =~= b@);
    }
}

} // verus!
