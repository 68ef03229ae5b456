use vstd::prelude::*;

verus! {

/// The character of a decimal digit.
pub open spec fn digit_char(d: int) -> char {
    if d == 0 {
        '0'
    } else if d == 1 {
        '1'
    } else if d == 2 {
        '2'
    } else if d == 3 {
        '3'
    } else if d == 4 {
        '4'
    } else if d == 5 {
        '5'
    } else if d == 6 {
        '6'
    } else if d == 7 {
        '7'
    } else if d == 8 {
        '8'
    } else {
        '9'
    }
}

/// The decimal writing of a number, without sign or leading zeros (as
/// `to_string` writes an unsigned integer).
pub open spec fn decimal(n: nat) -> Seq<char>
    decreases n,
{
    if n < 10 {
        seq![digit_char(n as int)]
    } else {
        decimal(n / 10).push(digit_char((n % 10) as int))
    }
}

/// `needle` occurs in `hay` starting at index `i`.
pub open spec fn occurs_at(hay: Seq<char>, needle: Seq<char>, i: int) -> bool {
    &&& 0 <= i
    &&& i + needle.len() <= hay.len()
    &&& hay.subrange(i, i + needle.len()) == needle
}

/// `needle` occurs somewhere in `hay` (the empty text occurs everywhere).
pub open spec fn contains_text(hay: Seq<char>, needle: Seq<char>) -> bool {
    exists|i: int| occurs_at(hay, needle, i)
}

fn digit(d: u64) -> (c: char)
    requires
        d < 10,
    ensures
        c == digit_char(d as int),
{
    if d == 0 {
        '0'
    } else if d == 1 {
        '1'
    } else if d == 2 {
        '2'
    } else if d == 3 {
        '3'
    } else if d == 4 {
        '4'
    } else if d == 5 {
        '5'
    } else if d == 6 {
        '6'
    } else if d == 7 {
        '7'
    } else if d == 8 {
        '8'
    } else {
        '9'
    }
}

/// The characters of the decimal writing of `n`.
pub fn decimal_chars(n: u64) -> (digits: Vec<char>)
    ensures
        digits@ == decimal(n as nat),
    decreases n,
{
    if n < 10 {
        let mut digits: Vec<char> = Vec::new();
        digits.push(digit(n));
        digits
    } else {
        let mut digits = decimal_chars(n / 10);
        digits.push(digit(n % 10));
        digits
    }
}

/// The characters of a text.
pub fn text_chars(s: &str) -> (chars: Vec<char>)
    ensures
        chars@ == s@,
{
    let len = s.unicode_len();
    let mut chars: Vec<char> = Vec::new();
    let mut i: usize = 0;
    while i < len
        invariant
            len == s@.len(),
            i <= len,
            chars@ == s@.take(i as int),
        decreases len - i,
    {
        chars.push(s.get_char(i));
        i = i + 1;
        assert(chars@ =~= s@.take(i as int));
    }
    assert(s@.take(len as int) =~= s@);
    chars
}

/// Whether `needle` occurs at index `start` of `hay`.
fn occurs_here(hay: &Vec<char>, needle: &Vec<char>, start: usize) -> (found: bool)
    requires
        start + needle@.len() <= hay@.len(),
    ensures
        found == occurs_at(hay@, needle@, start as int),
{
    let hay_len = hay.len();
    let mut j: usize = 0;
    while j < needle.len()
        invariant
            hay_len == hay@.len(),
            start + needle@.len() <= hay@.len(),
            j <= needle@.len(),
            forall|k: int| 0 <= k < j ==> hay@[start + k] == needle@[k],
        decreases needle@.len() - j,
    {
        if hay[start + j] != needle[j] {
            assert(hay@.subrange(start as int, start + needle@.len())[j as int] != needle@[j as int]);
            return false;
        }
        j = j + 1;
    }
    assert(hay@.subrange(start as int, start + needle@.len()) =~= needle@);
    true
}

/// Whether `needle` occurs somewhere in `hay`.
pub fn chars_contain(hay: &Vec<char>, needle: &Vec<char>) -> (found: bool)
    ensures
        found == contains_text(hay@, needle@),
{
    if needle.len() > hay.len() {
        return false;
    }
    let last = hay.len() - needle.len();
    let mut i: usize = 0;
    loop
        invariant
            i <= last,
            last == hay@.len() - needle@.len(),
            needle@.len() <= hay@.len(),
            forall|k: int| 0 <= k < i ==> !occurs_at(hay@, needle@, k),
        ensures
            forall|k: int| 0 <= k <= last ==> !occurs_at(hay@, needle@, k),
        decreases last - i,
    {
        if occurs_here(hay, needle, i) {
            return true;
        }
        if i == last {
            break;
        }
        i = i + 1;
    }
    assert forall|k: int| !occurs_at(hay@, needle@, k) by {
        if 0 <= k <= last {
        }
    }
    false
}

/// Whether the decimal writing of `id` contains `filter`.
pub fn id_contains(id: u64, filter: &str) -> (found: bool)
    ensures
        found == contains_text(decimal(id as nat), filter@),
{
    let digits = decimal_chars(id);
    let pattern = text_chars(filter);
    chars_contain(&digits, &pattern)
}

/// Whether `name` is the decimal writing of `id`.
pub fn id_is_name(id: u64, name: &str) -> (same: bool)
    ensures
        same == (decimal(id as nat) == name@),
{
    let digits = decimal_chars(id);
    let chars = text_chars(name);
    if digits.len() != chars.len() {
        return false;
    }
    let mut i: usize = 0;
    while i < digits.len()
        invariant
            digits@ == decimal(id as nat),
            chars@ == name@,
            digits@.len() == chars@.len(),
            i <= digits@.len(),
            forall|k: int| 0 <= k < i ==> digits@[k] == chars@[k],
        decreases digits@.len() - i,
    {
        if digits[i] != chars[i] {
            assert(digits@[i as int] != chars@[i as int]);
            return false;
        }
        i = i + 1;
    }
    assert(digits@ =~= chars@);
    true
}

/// The empty filter matches every account id.
pub proof fn lemma_empty_filter_matches(id: nat)
    ensures
        contains_text(decimal(id), Seq::<char>::empty()),
{
    assert(decimal(id).subrange(0, 0) =~= Seq::<char>::empty());
    assert(occurs_at(decimal(id), Seq::<char>::empty(), 0));
}

/// An id's own decimal writing matches it.
pub proof fn lemma_own_writing_matches(id: nat)
    ensures
        contains_text(decimal(id), decimal(id)),
{
    assert(decimal(id).subrange(0, decimal(id).len() as int) =~= decimal(id));
    assert(occurs_at(decimal(id), decimal(id), 0));
}

} // verus!
