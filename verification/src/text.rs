//! Text primitives shared by the gateway: splitting on a separator, joining
//! with a separator, and the facts that relate the two.

use vstd::prelude::*;
use vstd::std_specs::iter::IteratorSpec;
use vstd::string::StrSliceExecFns;
use vstd::string::StringExecFns;
use vstd::string::StringSliceAdditionalSpecFns;

verus! {

/// The pieces of `s` between occurrences of `sep`. There is always at least
/// one piece; consecutive separators delimit empty pieces.
pub open spec fn split(s: Seq<char>, sep: char) -> Seq<Seq<char>>
    decreases s.len(),
{
    if s.len() == 0 {
        seq![Seq::<char>::empty()]
    } else {
        let before = split(s.drop_last(), sep);
        if s.last() == sep {
            before.push(Seq::<char>::empty())
        } else {
            before.update(before.len() - 1, before.last().push(s.last()))
        }
    }
}

/// The pieces written one after another with `sep` between neighbours.
pub open spec fn join(pieces: Seq<Seq<char>>, sep: Seq<char>) -> Seq<char>
    decreases pieces.len(),
{
    if pieces.len() == 0 {
        Seq::<char>::empty()
    } else if pieces.len() == 1 {
        pieces[0]
    } else {
        join(pieces.drop_last(), sep) + sep + pieces.last()
    }
}

/// No piece holds the separator.
pub open spec fn separator_free(pieces: Seq<Seq<char>>, sep: char) -> bool {
    forall|i: int| 0 <= i < pieces.len() ==> !(#[trigger] pieces[i]).contains(sep)
}

/// Splitting never yields an empty list of pieces.
pub proof fn lemma_split_nonempty(s: Seq<char>, sep: char)
    ensures
        split(s, sep).len() >= 1,
    decreases s.len(),
{
    if s.len() > 0 {
        lemma_split_nonempty(s.drop_last(), sep);
    }
}

/// The pieces of a split hold no separator, and joining them gives the text back.
pub proof fn lemma_join_split(s: Seq<char>, sep: char)
    ensures
        separator_free(split(s, sep), sep),
        join(split(s, sep), seq![sep]) == s,
    decreases s.len(),
{
    if s.len() == 0 {
        assert(join(split(s, sep), seq![sep]) =~= s);
    } else {
        let head = s.drop_last();
        let before = split(head, sep);
        lemma_split_nonempty(head, sep);
        lemma_join_split(head, sep);
        if s.last() == sep {
            let after = before.push(Seq::<char>::empty());
            assert(after.drop_last() =~= before);
            assert(join(after, seq![sep]) =~= s);
            assert forall|i: int| 0 <= i < after.len() implies !(#[trigger] after[i]).contains(
                sep,
            ) by {
                if i < before.len() {
                    assert(after[i] == before[i]);
                }
            }
        } else {
            let grown = before.last().push(s.last());
            let after = before.update(before.len() - 1, grown);
            assert forall|i: int| 0 <= i < after.len() implies !(#[trigger] after[i]).contains(
                sep,
            ) by {
                if i < before.len() - 1 {
                    assert(after[i] == before[i]);
                } else {
                    assert(!before[before.len() - 1].contains(sep));
                    if grown.contains(sep) {
                        let k = choose|k: int| 0 <= k < grown.len() && grown[k] == sep;
                        if k < grown.len() - 1 {
                            assert(before.last()[k] == sep);
                        }
                    }
                }
            }
            if before.len() == 1 {
                assert(join(after, seq![sep]) =~= s);
            } else {
                assert(after.drop_last() =~= before.drop_last());
                assert(after.last() == grown);
                let front = join(before.drop_last(), seq![sep]);
                assert(join(before, seq![sep]) == front + seq![sep] + before.last());
                assert(join(after, seq![sep]) == front + seq![sep] + grown);
                assert(s =~= head.push(s.last()));
                assert(join(after, seq![sep]) =~= s);
            }
        }
    }
}

/// Appending a separator and a separator-free piece to a text appends that piece
/// to the text's split.
pub proof fn lemma_split_append(a: Seq<char>, b: Seq<char>, sep: char)
    requires
        !b.contains(sep),
    ensures
        split(a + seq![sep] + b, sep) == split(a, sep).push(b),
    decreases b.len(),
{
    let whole = a + seq![sep] + b;
    if b.len() == 0 {
        assert(whole.drop_last() =~= a);
        assert(b =~= Seq::<char>::empty());
    } else {
        let shorter = b.drop_last();
        assert(!shorter.contains(sep)) by {
            if shorter.contains(sep) {
                let k = choose|k: int| 0 <= k < shorter.len() && shorter[k] == sep;
                assert(b[k] == sep);
            }
        }
        assert(b.last() != sep) by {
            assert(b[b.len() - 1] == b.last());
        }
        lemma_split_append(a, shorter, sep);
        assert(whole.drop_last() =~= a + seq![sep] + shorter);
        assert(whole.last() == b.last());
        let before = split(a, sep).push(shorter);
        assert(before.update(before.len() - 1, shorter.push(b.last())) =~= split(a, sep).push(b))
            by {
            assert(shorter.push(b.last()) =~= b);
        }
    }
}

/// A text without the separator splits into itself alone.
pub proof fn lemma_split_single(b: Seq<char>, sep: char)
    requires
        !b.contains(sep),
    ensures
        split(b, sep) == seq![b],
    decreases b.len(),
{
    if b.len() == 0 {
        assert(b =~= Seq::<char>::empty());
    } else {
        let shorter = b.drop_last();
        assert(!shorter.contains(sep)) by {
            if shorter.contains(sep) {
                let k = choose|k: int| 0 <= k < shorter.len() && shorter[k] == sep;
                assert(b[k] == sep);
            }
        }
        assert(b.last() != sep) by {
            assert(b[b.len() - 1] == b.last());
        }
        lemma_split_single(shorter, sep);
        assert(shorter.push(b.last()) =~= b);
        assert(seq![shorter].update(0, b) =~= seq![b]);
    }
}

/// Splitting the join of separator-free pieces gives the pieces back.
pub proof fn lemma_split_join(pieces: Seq<Seq<char>>, sep: char)
    requires
        pieces.len() >= 1,
        separator_free(pieces, sep),
    ensures
        split(join(pieces, seq![sep]), sep) == pieces,
    decreases pieces.len(),
{
    if pieces.len() == 1 {
        lemma_split_single(pieces[0], sep);
        assert(seq![pieces[0]] =~= pieces);
    } else {
        let front = pieces.drop_last();
        assert(separator_free(front, sep)) by {
            assert forall|i: int| 0 <= i < front.len() implies !(#[trigger] front[i]).contains(
                sep,
            ) by {
                assert(front[i] == pieces[i]);
            }
        }
        lemma_split_join(front, sep);
        assert(!pieces.last().contains(sep)) by {
            assert(pieces[pieces.len() - 1] == pieces.last());
        }
        lemma_split_append(join(front, seq![sep]), pieces.last(), sep);
        assert(front.push(pieces.last()) =~= pieces);
    }
}

/// The texts that a list of strings holds, in order.
pub open spec fn views(items: Seq<String>) -> Seq<Seq<char>> {
    items.map_values(|item: String| item@)
}

/// Splits `raw` at every occurrence of `sep`.
pub fn split_text(raw: &str, sep: char) -> (pieces: Vec<String>)
    ensures
        views(pieces@) == split(raw@, sep),
{
    broadcast use vstd::string::group_string_axioms;

    let total = raw.unicode_len();
    let mut pieces: Vec<String> = Vec::new();
    let mut start: usize = 0;
    let mut at: usize = 0;
    let mut chars = raw.chars();
    assert(raw@.subrange(0, 0) =~= Seq::<char>::empty());
    assert(views(pieces@).push(raw@.subrange(0, 0)) =~= split(raw@.subrange(0, 0), sep));
    loop
        invariant
            total == raw@.len(),
            start <= at <= total,
            chars.obeys_prophetic_iter_laws(),
            chars.remaining() == raw@.subrange(at as int, total as int),
            chars.decrease() is Some,
            split(raw@.subrange(0, at as int), sep) == views(pieces@).push(
                raw@.subrange(start as int, at as int),
            ),
        ensures
            at == total,
        decreases total - at,
    {
        let next = chars.next();
        match next {
            None => {
                break ;
            },
            Some(c) => {
                let ghost prefix = raw@.subrange(0, at as int);
                let ghost longer = raw@.subrange(0, at + 1);
                assert(c == raw@[at as int]);
                assert(longer.drop_last() =~= prefix);
                assert(longer.last() == c);
                assert(chars.remaining() =~= raw@.subrange(at + 1, total as int));
                if c == sep {
                    let piece = raw.substring_char(start, at).to_owned();
                    proof {
                        assert(views(pieces@.push(piece)) =~= views(pieces@).push(piece@));
                        assert(raw@.subrange(at + 1, at + 1) =~= Seq::<char>::empty());
                    }
                    pieces.push(piece);
                    start = at + 1;
                } else {
                    proof {
                        let before = split(prefix, sep);
                        assert(before.update(before.len() - 1, before.last().push(c))
                            =~= views(pieces@).push(raw@.subrange(start as int, at + 1))) by {
                            assert(raw@.subrange(start as int, at as int).push(c)
                                =~= raw@.subrange(start as int, at + 1));
                        }
                    }
                }
                at = at + 1;
            },
        }
    }
    let piece = raw.substring_char(start, at).to_owned();
    proof {
        assert(views(pieces@.push(piece)) =~= views(pieces@).push(piece@));
        assert(raw@.subrange(0, total as int) =~= raw@);
    }
    pieces.push(piece);
    pieces
}

/// The number of bytes that a text takes in memory.
pub open spec fn byte_len(s: Seq<char>) -> nat {
    vstd::utf8::encode_utf8(s).len()
}

/// The bytes of all the texts together.
pub open spec fn total_byte_len(pieces: Seq<Seq<char>>) -> nat
    decreases pieces.len(),
{
    if pieces.len() == 0 {
        0
    } else {
        total_byte_len(pieces.drop_last()) + byte_len(pieces.last())
    }
}

/// A count as a machine word holds it: itself, or the largest word if it is larger.
pub open spec fn saturated(n: nat) -> usize {
    if n <= usize::MAX {
        n as usize
    } else {
        usize::MAX
    }
}

/// Adds two counts, stopping at the largest machine word.
pub fn saturating_sum(a: usize, b: usize) -> (sum: usize)
    ensures
        sum == saturated((a + b) as nat),
{
    if a > usize::MAX - b {
        usize::MAX
    } else {
        a + b
    }
}

/// The bytes of all the items together, stopping at the largest machine word.
pub fn total_len(items: &Vec<String>) -> (total: usize)
    ensures
        total == saturated(total_byte_len(views(items@))),
{
    let mut total: usize = 0;
    let mut i: usize = 0;
    assert(views(items@).subrange(0, 0) =~= Seq::<Seq<char>>::empty());
    while i < items.len()
        invariant
            i <= items.len(),
            total == saturated(total_byte_len(views(items@).subrange(0, i as int))),
        decreases items.len() - i,
    {
        let ghost upto = views(items@).subrange(0, i + 1);
        assert(upto.drop_last() =~= views(items@).subrange(0, i as int));
        assert(upto.last() == items@[i as int]@);
        total = saturating_sum(total, items[i].as_str().as_bytes().len());
        i = i + 1;
    }
    assert(views(items@).subrange(0, items.len() as int) =~= views(items@));
    total
}

/// Writes `first` and then every item of `rest`, with `sep` between neighbours.
pub fn join_from(first: &str, rest: &Vec<String>, sep: &str) -> (joined: String)
    ensures
        joined@ == join(seq![first@] + views(rest@), sep@),
{
    let mut joined = first.to_owned();
    let mut i: usize = 0;
    assert(seq![first@] + views(rest@).subrange(0, 0) =~= seq![first@]);
    while i < rest.len()
        invariant
            i <= rest.len(),
            joined@ == join(seq![first@] + views(rest@).subrange(0, i as int), sep@),
        decreases rest.len() - i,
    {
        let ghost upto = seq![first@] + views(rest@).subrange(0, i + 1);
        assert(upto.drop_last() =~= seq![first@] + views(rest@).subrange(0, i as int));
        assert(upto.last() == rest@[i as int]@);
        joined.append(sep);
        joined.append(rest[i].as_str());
        i = i + 1;
    }
    assert(views(rest@).subrange(0, rest.len() as int) =~= views(rest@));
    joined
}

/// The character that writes a digit.
pub open spec fn digit_char(d: nat) -> char {
    if d == 0 {
        '0'
    } else if d == 1 {
        '1'
    } else if d == 2 {
        '2'
    } else if d == 3 {
        '3'
    } else if d == 4 {
        '4'
    } else if d == 5 {
        '5'
    } else if d == 6 {
        '6'
    } else if d == 7 {
        '7'
    } else if d == 8 {
        '8'
    } else {
        '9'
    }
}

/// A natural number written in base ten, without leading zeros.
pub open spec fn decimal(n: nat) -> Seq<char>
    decreases n,
{
    if n < 10 {
        seq![digit_char(n)]
    } else {
        decimal(n / 10).push(digit_char(n % 10))
    }
}

/// An integer written in base ten, with a minus sign if it is negative.
pub open spec fn signed_decimal(i: int) -> Seq<char> {
    if i < 0 {
        seq!['-'] + decimal((-i) as nat)
    } else {
        decimal(i as nat)
    }
}

/// The text of one digit.
fn digit_text(d: u8) -> (text: &'static str)
    requires
        d < 10,
    ensures
        text@ == seq![digit_char(d as nat)],
{
    proof {
        reveal_strlit("0");
        reveal_strlit("1");
        reveal_strlit("2");
        reveal_strlit("3");
        reveal_strlit("4");
        reveal_strlit("5");
        reveal_strlit("6");
        reveal_strlit("7");
        reveal_strlit("8");
        reveal_strlit("9");
    }
    let text = if d == 0 {
        "0"
    } else if d == 1 {
        "1"
    } else if d == 2 {
        "2"
    } else if d == 3 {
        "3"
    } else if d == 4 {
        "4"
    } else if d == 5 {
        "5"
    } else if d == 6 {
        "6"
    } else if d == 7 {
        "7"
    } else if d == 8 {
        "8"
    } else {
        "9"
    };
    assert(text@ =~= seq![digit_char(d as nat)]);
    text
}

/// Writes `n` in base ten at the end of `out`.
pub fn push_decimal(out: &mut String, n: u64)
    ensures
        final(out)@ == old(out)@ + decimal(n as nat),
    decreases n,
{
    if n >= 10 {
        push_decimal(out, n / 10);
    }
    let ghost before = out@;
    out.append(digit_text((n % 10) as u8));
    proof {
        if n >= 10 {
            assert(before + seq![digit_char((n % 10) as nat)] =~= old(out)@ + decimal(n as nat));
        }
    }
}

/// Writes `i` in base ten at the end of `out`, with a minus sign if it is negative.
pub fn push_signed_decimal(out: &mut String, i: i64)
    ensures
        final(out)@ == old(out)@ + signed_decimal(i as int),
{
    if i < 0 {
        proof {
            reveal_strlit("-");
        }
        out.append("-");
        let magnitude: u64 = if i == i64::MIN {
            9223372036854775808u64
        } else {
            (-i) as u64
        };
        let ghost before = out@;
        push_decimal(out, magnitude);
        assert(out@ =~= old(out)@ + signed_decimal(i as int)) by {
            assert("-"@ =~= seq!['-']);
        }
    } else {
        push_decimal(out, i as u64);
    }
}

/// Whether two texts are the same, character for character.
pub fn same_text(a: &str, b: &str) -> (same: bool)
    ensures
        same == (a@ == b@),
{
    let left = a.as_bytes();
    let right = b.as_bytes();
    proof {
        vstd::utf8::encode_utf8_decode_utf8(a@);
        vstd::utf8::encode_utf8_decode_utf8(b@);
    }
    if left.len() != right.len() {
        return false;
    }
    let mut i: usize = 0;
    while i < left.len()
        invariant
            i <= left.len(),
            left.len() == right.len(),
            left@ == a.spec_bytes(),
            right@ == b.spec_bytes(),
            forall|k: int| 0 <= k < i ==> left@[k] == right@[k],
        decreases left.len() - i,
    {
        if left[i] != right[i] {
            return false;
        }
        i = i + 1;
    }
    assert(left@ =~= right@);
    true
}

/// The largest index that is at most `limit` and at which a character of the
/// encoded text starts or the text ends.
pub open spec fn floor_boundary(bytes: Seq<u8>, limit: int) -> int
    decreases limit,
{
    if limit <= 0 {
        0
    } else if limit >= bytes.len() {
        bytes.len() as int
    } else if vstd::utf8::is_char_boundary(bytes, limit) {
        limit
    } else {
        floor_boundary(bytes, limit - 1)
    }
}

/// The longest beginning of the text that takes at most `limit` bytes and
/// ends between two characters.
pub open spec fn truncated(s: Seq<char>, limit: nat) -> Seq<char> {
    let bytes = vstd::utf8::encode_utf8(s);
    vstd::utf8::decode_utf8(bytes.subrange(0, floor_boundary(bytes, limit as int)))
}

/// Cuts the text down to at most `limit` bytes, never inside a character.
pub fn truncate_text(s: &str, limit: usize) -> (cut: String)
    ensures
        cut@ == truncated(s@, limit as nat),
{
    let ghost bytes = s.spec_bytes();
    proof {
        vstd::utf8::encode_utf8_decode_utf8(s@);
        vstd::utf8::encode_utf8_valid_utf8(s@);
        vstd::utf8::is_char_boundary_start_end_of_seq(bytes);
    }
    let len = s.as_bytes().len();
    if len <= limit {
        assert(bytes.subrange(0, bytes.len() as int) =~= bytes);
        return s.to_owned();
    }
    let mut at = limit;
    while !s.is_char_boundary(at)
        invariant
            at <= limit < len,
            len == bytes.len(),
            bytes == s.spec_bytes(),
            vstd::utf8::is_char_boundary(bytes, 0),
            floor_boundary(bytes, limit as int) == floor_boundary(bytes, at as int),
        decreases at,
    {
        at = at - 1;
    }
    let (head, _) = s.split_at(at);
    proof {
        vstd::utf8::encode_utf8_decode_utf8(head@);
        assert(floor_boundary(bytes, at as int) == at);
    }
    head.to_owned()
}

/// Writes the items one after another with `sep` between neighbours.
pub fn join_text(items: &Vec<String>, sep: &str) -> (joined: String)
    ensures
        joined@ == join(views(items@), sep@),
{
    let mut joined = String::new();
    let mut i: usize = 0;
    assert(views(items@).subrange(0, 0) =~= Seq::<Seq<char>>::empty());
    while i < items.len()
        invariant
            i <= items.len(),
            joined@ == join(views(items@).subrange(0, i as int), sep@),
        decreases items.len() - i,
    {
        let ghost upto = views(items@).subrange(0, i + 1);
        assert(upto.drop_last() =~= views(items@).subrange(0, i as int));
        assert(upto.last() == items@[i as int]@);
        if i > 0 {
            joined.append(sep);
        } else {
            assert(upto[0] == items@[0]@);
            assert(Seq::<char>::empty() + items@[0]@ =~= items@[0]@);
        }
        joined.append(items[i].as_str());
        i = i + 1;
    }
    assert(views(items@).subrange(0, items.len() as int) =~= views(items@));
    joined
}

/// Whether `s` begins with `prefix`.
pub open spec fn starts_with(s: Seq<char>, prefix: Seq<char>) -> bool {
    prefix.len() <= s.len() && s.subrange(0, prefix.len() as int) == prefix
}

/// What follows `prefix` in `s`, if `s` begins with it.
pub fn strip_prefix(s: &str, prefix: &str) -> (rest: Option<String>)
    ensures
        rest is Some <==> starts_with(s@, prefix@),
        rest is Some ==> rest->0@ == s@.skip(prefix@.len() as int),
{
    broadcast use vstd::string::group_string_axioms;

    let total = s.unicode_len();
    let lead = prefix.unicode_len();
    if lead > total {
        return None;
    }
    let mut ours = s.chars();
    let mut theirs = prefix.chars();
    let mut i: usize = 0;
    while i < lead
        invariant
            i <= lead <= total,
            total == s@.len(),
            lead == prefix@.len(),
            ours.obeys_prophetic_iter_laws(),
            theirs.obeys_prophetic_iter_laws(),
            ours.remaining() == s@.subrange(i as int, total as int),
            theirs.remaining() == prefix@.subrange(i as int, lead as int),
            forall|k: int| 0 <= k < i ==> s@[k] == prefix@[k],
        decreases lead - i,
    {
        let a = ours.next();
        let b = theirs.next();
        assert(a == Some(s@[i as int]));
        assert(b == Some(prefix@[i as int]));
        assert(ours.remaining() =~= s@.subrange(i + 1, total as int));
        assert(theirs.remaining() =~= prefix@.subrange(i + 1, lead as int));
        match (a, b) {
            (Some(x), Some(y)) => {
                if x != y {
                    assert(s@.subrange(0, lead as int)[i as int] != prefix@[i as int]);
                    return None;
                }
            },
            _ => {
                return None;
            },
        }
        i = i + 1;
    }
    assert(s@.subrange(0, lead as int) =~= prefix@);
    let rest = s.substring_char(lead, total).to_owned();
    assert(rest@ =~= s@.skip(lead as int));
    Some(rest)
}

} // verus!
