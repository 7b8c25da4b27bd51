//! Interned strings of sixteen-bit units.
use vstd::prelude::*;

verus! {

/// Texts as sequences of sixteen-bit units, and the table that names them.
pub struct Texts;

impl Texts {
    /// The units of a text that lies in the basic plane.
    pub open spec fn units(text: &str) -> Seq<u16> {
        text@.map_values(|c: char| c as u16)
    }

    /// First position of `text`, looking from `from`.
    pub open spec fn position(texts: Seq<Seq<u16>>, text: Seq<u16>, from: int) -> Option<int>
        decreases texts.len() - from,
    {
        if from < 0 || from >= texts.len() {
            None
        } else if texts[from] == text {
            Some(from)
        } else {
            Texts::position(texts, text, from + 1)
        }
    }

    /// The table after `text` was interned.
    pub open spec fn interned(texts: Seq<Seq<u16>>, text: Seq<u16>) -> Seq<Seq<u16>> {
        if Texts::position(texts, text, 0) is Some {
            texts
        } else {
            texts.push(text)
        }
    }

    /// The identifier that `text` has once it was interned.
    pub open spec fn atom_of(texts: Seq<Seq<u16>>, text: Seq<u16>) -> usize {
        match Texts::position(texts, text, 0) {
            Some(p) => p as usize,
            None => texts.len() as usize,
        }
    }

    pub open spec fn table(table: Seq<Vec<u16>>) -> Seq<Seq<u16>> {
        table.map_values(|v: Vec<u16>| v@)
    }

    /// Decimal digits of a natural number.
    pub open spec fn digits(n: nat) -> Seq<u16>
        decreases n,
    {
        if n < 10 {
            seq![(48 + n) as u16]
        } else {
            Texts::digits(n / 10).push((48 + n % 10) as u16)
        }
    }

    /// Decimal text of an integer.
    pub open spec fn decimal(n: int) -> Seq<u16> {
        if n < 0 {
            seq![45u16] + Texts::digits((-n) as nat)
        } else {
            Texts::digits(n as nat)
        }
    }
}

proof fn position_is_first(texts: Seq<Seq<u16>>, text: Seq<u16>, from: int)
    requires
        0 <= from <= texts.len(),
    ensures
        match Texts::position(texts, text, from) {
            Some(p) => from <= p < texts.len() && texts[p] == text,
            None => forall|i: int| from <= i < texts.len() ==> texts[i] != text,
        },
    decreases texts.len() - from,
{
    if from < texts.len() && texts[from] != text {
        position_is_first(texts, text, from + 1);
    }
}

/// Interning gives a name for the text and leaves every older name as it was.
pub proof fn interning_names_the_text(texts: Seq<Seq<u16>>, text: Seq<u16>)
    requires
        texts.len() < usize::MAX,
    ensures
        Texts::atom_of(texts, text) < Texts::interned(texts, text).len(),
        Texts::interned(texts, text)[Texts::atom_of(texts, text) as int] == text,
        forall|i: int| 0 <= i < texts.len() ==> Texts::interned(texts, text)[i] == texts[i],
        Texts::interned(Texts::interned(texts, text), text) == Texts::interned(texts, text),
{
    position_is_first(texts, text, 0);
    position_is_first(Texts::interned(texts, text), text, 0);
}

/// The name of a text leads back to it.
pub proof fn names_are_texts(texts: Seq<Seq<u16>>, text: Seq<u16>)
    requires
        texts.len() <= usize::MAX,
        Texts::position(texts, text, 0) is Some,
    ensures
        Texts::atom_of(texts, text) < texts.len(),
        texts[Texts::atom_of(texts, text) as int] == text,
{
    position_is_first(texts, text, 0);
}

/// Different texts have different names.
pub proof fn names_are_apart(texts: Seq<Seq<u16>>, left: Seq<u16>, right: Seq<u16>)
    requires
        texts.len() <= usize::MAX,
        Texts::position(texts, left, 0) is Some,
        Texts::position(texts, right, 0) is Some,
    ensures
        Texts::atom_of(texts, left) == Texts::atom_of(texts, right) <==> left == right,
{
    names_are_texts(texts, left);
    names_are_texts(texts, right);
}

/// An interned text has the name that it was to get.
pub proof fn interning_gives_the_name(texts: Seq<Seq<u16>>, text: Seq<u16>)
    requires
        texts.len() <= usize::MAX,
    ensures
        Texts::position(Texts::interned(texts, text), text, 0) is Some,
        Texts::atom_of(Texts::interned(texts, text), text) == Texts::atom_of(texts, text),
{
    let after = Texts::interned(texts, text);
    position_is_first(texts, text, 0);
    position_is_first(after, text, 0);
    if Texts::position(texts, text, 0) is None {
        assert(after.last() == text);
        match Texts::position(after, text, 0) {
            Some(p) => {
                assert(p < texts.len() ==> texts[p] == text);
            },
            None => {
                assert(after[texts.len() as int] == text);
            },
        }
    }
}

/// A text that has a name keeps it when another one is interned.
pub proof fn names_stay(texts: Seq<Seq<u16>>, text: Seq<u16>, other: Seq<u16>, from: int)
    requires
        Texts::position(texts, text, from) is Some,
    ensures
        Texts::position(Texts::interned(texts, other), text, from) == Texts::position(
            texts,
            text,
            from,
        ),
    decreases texts.len() - from,
{
    if 0 <= from < texts.len() && texts[from] != text {
        names_stay(texts, text, other, from + 1);
    }
}

/// Every decimal text is made of digits.
proof fn digits_are_digits(n: nat)
    ensures
        Texts::digits(n).len() > 0,
        forall|i: int| 0 <= i < Texts::digits(n).len() ==> 48 <= #[trigger] Texts::digits(n)[i] < 58,
    decreases n,
{
    if n >= 10 {
        digits_are_digits(n / 10);
    }
}

/// Different numbers have different decimal texts.
pub proof fn digits_tell_numbers_apart(left: nat, right: nat)
    requires
        Texts::digits(left) == Texts::digits(right),
    ensures
        left == right,
    decreases left,
{
    let a = Texts::digits(left);
    let b = Texts::digits(right);
    if left >= 10 {
        digits_are_digits(left / 10);
    }
    if right >= 10 {
        digits_are_digits(right / 10);
    }
    assert(a.last() == b.last());
    assert(left % 10 == right % 10);
    if left >= 10 && right >= 10 {
        assert(a.drop_last() =~= Texts::digits(left / 10));
        assert(b.drop_last() =~= Texts::digits(right / 10));
        digits_tell_numbers_apart(left / 10, right / 10);
    }
}

impl Texts {
    /// The number that decimal digits stand for, the most significant one
    /// first.
    pub open spec fn read_digits(text: Seq<u16>) -> int
        decreases text.len(),
    {
        if text.len() == 0 {
            0
        } else {
            10 * Texts::read_digits(text.drop_last()) + (text.last() - '0' as u16)
        }
    }

    /// The integer that a decimal text stands for.
    pub open spec fn read_integer(text: Seq<u16>) -> int {
        if text.len() > 0 && text[0] == '-' as u16 {
            -Texts::read_digits(text.drop_first())
        } else {
            Texts::read_digits(text)
        }
    }
}

/// The digits of a number read as that number, all of them are digits, and only
/// zero starts with a zero.
pub proof fn digits_read_back(n: nat)
    ensures
        Texts::read_digits(Texts::digits(n)) == n,
        Texts::digits(n).len() > 0,
        forall|i: int|
            0 <= i < Texts::digits(n).len() ==> '0' as u16 <= #[trigger] Texts::digits(n)[i] <= '9' as u16,
        Texts::digits(n)[0] == '0' as u16 ==> n == 0 && Texts::digits(n).len() == 1,
    decreases n,
{
    if n < 10 {
        assert(Texts::digits(n).drop_last() =~= Seq::<u16>::empty());
        assert(Texts::read_digits(Seq::<u16>::empty()) == 0);
    } else {
        digits_read_back(n / 10);
        assert(Texts::digits(n).drop_last() =~= Texts::digits(n / 10));
        assert(Texts::digits(n)[0] == Texts::digits(n / 10)[0]);
    }
}

/// The decimal text of an integer reads as that integer.
pub proof fn decimal_texts_read_back(n: int)
    ensures
        Texts::read_integer(Texts::decimal(n)) == n,
        n < 0 <==> Texts::decimal(n)[0] == '-' as u16,
{
    if n < 0 {
        digits_read_back((-n) as nat);
        assert(Texts::decimal(n).drop_first() =~= Texts::digits((-n) as nat));
    } else {
        digits_read_back(n as nat);
    }
}

/// No index is the name of the length.
pub proof fn indices_are_not_length(n: nat)
    ensures
        Texts::digits(n) != Texts::units("length"),
{
    digits_are_digits(n);
    reveal_strlit("length");
    assert(Texts::units("length")[0] == 108);
}

/// Distinct names stay distinct texts: a table without repetitions keeps none.
pub proof fn interning_keeps_names_apart(texts: Seq<Seq<u16>>, text: Seq<u16>)
    requires
        forall|i: int, j: int| 0 <= i < j < texts.len() ==> texts[i] != texts[j],
    ensures
        forall|i: int, j: int|
            0 <= i < j < Texts::interned(texts, text).len() ==> Texts::interned(texts, text)[i] != Texts::interned(
                texts,
                text,
            )[j],
{
    position_is_first(texts, text, 0);
}

pub fn same_text(left: &Vec<u16>, right: &Vec<u16>) -> (r: bool)
    ensures
        r == (left@ == right@),
{
    if left.len() != right.len() {
        return false;
    }
    let mut i: usize = 0;
    while i < left.len()
        invariant
            left@.len() == right@.len(),
            i <= left@.len(),
            forall|j: int| 0 <= j < i ==> left@[j] == right@[j],
        decreases left@.len() - i,
    {
        if left[i] != right[i] {
            return false;
        }
        i = i + 1;
    }
    assert(left@ =~= right@);
    true
}

/// The units of a literal.
pub fn text_units(text: &str) -> (r: Vec<u16>)
    ensures
        r@ == Texts::units(text),
{
    let mut out: Vec<u16> = Vec::new();
    let length: usize = text.unicode_len();
    let mut i: usize = 0;
    while i < length
        invariant
            length == text@.len(),
            i <= length,
            out@ == Texts::units(text).take(i as int),
        decreases length - i,
    {
        let c = text.get_char(i);
        out.push(c as u16);
        i = i + 1;
        assert(out@ =~= Texts::units(text).take(i as int));
    }
    assert(Texts::units(text).take(length as int) =~= Texts::units(text));
    out
}

pub fn append_text(out: &mut Vec<u16>, more: &Vec<u16>)
    ensures
        final(out)@ == old(out)@ + more@,
{
    let ghost before = out@;
    let mut i: usize = 0;
    while i < more.len()
        invariant
            i <= more@.len(),
            out@ == before + more@.take(i as int),
        decreases more@.len() - i,
    {
        out.push(more[i]);
        i = i + 1;
        assert(out@ =~= before + more@.take(i as int));
    }
    assert(more@.take(more@.len() as int) =~= more@);
}

pub fn copy_text(text: &Vec<u16>) -> (r: Vec<u16>)
    ensures
        r@ == text@,
{
    let mut out: Vec<u16> = Vec::new();
    append_text(&mut out, text);
    assert(out@ =~= text@);
    out
}

fn push_digits(out: &mut Vec<u16>, n: u64)
    ensures
        final(out)@ == old(out)@ + Texts::digits(n as nat),
    decreases n,
{
    if n >= 10 {
        push_digits(out, n / 10);
    }
    let ghost middle = out@;
    let digit: u64 = n % 10;
    out.push((48 + digit) as u16);
    proof {
        if n >= 10 {
            assert(out@ =~= old(out)@ + Texts::digits(n as nat));
        } else {
            assert(out@ =~= old(out)@ + Texts::digits(n as nat));
        }
    }
}

pub fn decimal_text(n: i64) -> (r: Vec<u16>)
    requires
        n > i64::MIN,
    ensures
        r@ == Texts::decimal(n as int),
{
    let mut out: Vec<u16> = Vec::new();
    if n < 0 {
        out.push(45);
        push_digits(&mut out, (-n) as u64);
        assert(out@ =~= Texts::decimal(n as int));
    } else {
        push_digits(&mut out, n as u64);
        assert(out@ =~= Texts::decimal(n as int));
    }
    out
}

/// The decimal digits of an index.
pub fn index_text(n: usize) -> (r: Vec<u16>)
    ensures
        r@ == Texts::digits(n as nat),
{
    let mut out: Vec<u16> = Vec::new();
    push_digits(&mut out, n as u64);
    assert(out@ =~= Texts::digits(n as nat));
    out
}

} // verus!
