use vstd::prelude::*;
use vstd::string::StrSliceExecFns;
use vstd::string::StringExecFns;

verus! {

/// Number of characters at the end of `s` that come after the last `c`
/// (all of `s` when `c` does not occur).
pub open spec fn tail_len(s: Seq<char>, c: char) -> nat
    decreases s.len(),
{
    if s.len() == 0 {
        0
    } else if s.last() == c {
        0
    } else {
        tail_len(s.drop_last(), c) + 1
    }
}

/// The part of `s` after the last `c`, or all of `s` when `c` does not occur.
pub open spec fn after_last(s: Seq<char>, c: char) -> Seq<char> {
    s.subrange(s.len() - tail_len(s, c), s.len() as int)
}

/// The extension of a resource locator: the text after the last `.` of its
/// last `/`-separated segment, or that whole segment when it has no `.`.
pub open spec fn extension_of(url: Seq<char>) -> Seq<char> {
    after_last(after_last(url, '/'), '.')
}

/// The character of a decimal digit.
pub open spec fn digit_char(d: nat) -> char {
    "0123456789"@[d as int]
}

/// Decimal notation of `n`, without leading zeros.
pub open spec fn decimal(n: nat) -> Seq<char>
    decreases n,
{
    if n < 10 {
        seq![digit_char(n)]
    } else {
        decimal(n / 10) + seq![digit_char(n % 10)]
    }
}

/// The file name of resource `index` of entry `id`:
/// `{slug}-{id}-{index}.{ext}`, or `{id}-{index}.{ext}` when the slug is empty.
pub open spec fn file_name_of(id: nat, slug: Seq<char>, index: nat, ext: Seq<char>) -> Seq<char> {
    let prefix = if slug.len() == 0 { slug } else { slug + seq!['-'] };
    prefix + decimal(id) + seq!['-'] + decimal(index) + seq!['.'] + ext
}

/// The part of `s` after its last `c`.
fn after_last_exec<'a>(s: &'a str, c: char) -> (r: &'a str)
    ensures
        r@ == after_last(s@, c),
{
    let n = s.unicode_len();
    let mut i: usize = n;
    assert(s@.subrange(0, n as int) =~= s@);
    while i > 0 && s.get_char(i - 1) != c
        invariant
            i <= n,
            n == s@.len(),
            tail_len(s@, c) == tail_len(s@.subrange(0, i as int), c) + (n - i),
        decreases i,
    {
        assert(s@.subrange(0, i as int).drop_last() =~= s@.subrange(0, i - 1));
        i = i - 1;
    }
    assert(tail_len(s@.subrange(0, i as int), c) == 0);
    s.substring_char(i, n)
}

/// The extension of a resource locator (see `extension_of`).
pub fn extension(url: &str) -> (r: &str)
    ensures
        r@ == extension_of(url@),
{
    let segment = after_last_exec(url, '/');
    after_last_exec(segment, '.')
}

/// Decimal notation of `n`.
pub fn decimal_string(n: u64) -> (r: String)
    ensures
        r@ == decimal(n as nat),
{
    let digits = "0123456789";
    proof {
        reveal_strlit("0123456789");
    }
    let first = (n % 10) as usize;
    let mut acc = String::from_str(digits.substring_char(first, first + 1));
    let mut m: u64 = n / 10;
    assert(acc@ =~= seq![digit_char((n % 10) as nat)]);
    while m > 0
        invariant
            digits@ == "0123456789"@,
            digits@.len() == 10,
            m > 0 ==> decimal(n as nat) == decimal(m as nat) + acc@,
            m == 0 ==> decimal(n as nat) == acc@,
        decreases m,
    {
        let d = (m % 10) as usize;
        let piece = digits.substring_char(d, d + 1);
        assert(piece@ =~= seq![digit_char(d as nat)]);
        let ghost old_acc = acc@;
        acc = String::from_str(piece).concat(acc.as_str());
        proof {
            if m >= 10 {
                assert(decimal(m as nat) == decimal((m / 10) as nat) + seq![digit_char((m % 10) as nat)]);
                assert(decimal(m as nat) + old_acc =~= decimal((m / 10) as nat) + acc@);
            } else {
                assert(decimal(m as nat) + old_acc =~= acc@);
            }
        }
        m = m / 10;
    }
    acc
}

/// The file name of resource `index` of entry `id` with the given slug and
/// extension (see `file_name_of`).
pub fn filename(id: u64, slug: &str, index: usize, ext: &str) -> (r: String)
    ensures
        r@ == file_name_of(id as nat, slug@, index as nat, ext@),
{
    proof {
        reveal_strlit("-");
        reveal_strlit(".");
    }
    let mut name = String::from_str(slug);
    if slug.unicode_len() > 0 {
        name.append("-");
    }
    name.append(decimal_string(id).as_str());
    name.append("-");
    name.append(decimal_string(index as u64).as_str());
    name.append(".");
    name.append(ext);
    assert(name@ =~= file_name_of(id as nat, slug@, index as nat, ext@));
    name
}

} // verus!
