use vstd::prelude::*;

verus! {

/// Value of little-endian base-256 digits: the first digit is the least significant.
pub open spec fn digits_value(d: Seq<u8>) -> nat
    decreases d.len(),
{
    if d.len() == 0 {
        0
    } else {
        d[0] as nat + 256 * digits_value(d.skip(1))
    }
}

/// Value of big-endian bytes: the last byte is the least significant.
pub open spec fn be_value(b: Seq<u8>) -> nat
    decreases b.len(),
{
    if b.len() == 0 {
        0
    } else {
        be_value(b.drop_last()) * 256 + b.last() as nat
    }
}

/// Digit `i` of `d`, reading missing high digits as zero.
pub open spec fn digit_at(d: Seq<u8>, i: int) -> u8 {
    if 0 <= i < d.len() {
        d[i]
    } else {
        0
    }
}

/// The digits of `d` above the lowest one.
pub open spec fn upper_digits(d: Seq<u8>) -> Seq<u8> {
    if d.len() == 0 {
        d
    } else {
        d.skip(1)
    }
}

/// Digits of `digits_value(d) + c`, computed by carrying from the lowest digit.
pub open spec fn add_digits(d: Seq<u8>, c: nat) -> Seq<u8>
    decreases d.len(), c,
{
    if d.len() == 0 {
        if c == 0 {
            Seq::empty()
        } else {
            seq![(c % 256) as u8] + add_digits(d, c / 256)
        }
    } else {
        seq![((d[0] + c) % 256) as u8] + add_digits(d.skip(1), ((d[0] + c) / 256) as nat)
    }
}

proof fn lemma_split(d: Seq<u8>)
    ensures
        digits_value(d) == digit_at(d, 0) as nat + 256 * digits_value(upper_digits(d)),
        upper_digits(d).len() == if d.len() == 0 { 0 } else { d.len() - 1 },
        forall|i: int| 0 <= i ==> #[trigger] digit_at(upper_digits(d), i) == digit_at(d, i + 1),
{
}

proof fn lemma_cons_value(x: u8, rest: Seq<u8>)
    ensures
        digits_value(seq![x] + rest) == x as nat + 256 * digits_value(rest),
{
    assert((seq![x] + rest).skip(1) =~= rest);
}

proof fn lemma_add_digits(d: Seq<u8>, c: nat)
    ensures
        digits_value(add_digits(d, c)) == digits_value(d) + c,
    decreases d.len(), c,
{
    if d.len() == 0 {
        if c != 0 {
            lemma_add_digits(d, c / 256);
            lemma_cons_value((c % 256) as u8, add_digits(d, c / 256));
            assert(c == c % 256 + 256 * (c / 256)) by (nonlinear_arith);
        }
    } else {
        let s: nat = (d[0] + c) as nat;
        lemma_add_digits(d.skip(1), s / 256);
        lemma_cons_value((s % 256) as u8, add_digits(d.skip(1), s / 256));
        assert(s == s % 256 + 256 * (s / 256)) by (nonlinear_arith);
    }
}

proof fn lemma_digit_unique(x0: int, y0: int, x1: int, y1: int)
    requires
        0 <= x0 < 256,
        0 <= x1 < 256,
        x0 + 256 * y0 == x1 + 256 * y1,
    ensures
        x0 == x1,
        y0 == y1,
{
    assert(x0 == x1 && y0 == y1) by (nonlinear_arith)
        requires
            0 <= x0 < 256,
            0 <= x1 < 256,
            x0 + 256 * y0 == x1 + 256 * y1,
    ;
}

/// Two digit sequences have the same value exactly when they agree digit by
/// digit, missing high digits counting as zero.
proof fn lemma_same_value(a: Seq<u8>, b: Seq<u8>)
    ensures
        (digits_value(a) == digits_value(b)) <==> (forall|i: int|
            0 <= i ==> #[trigger] digit_at(a, i) == digit_at(b, i)),
    decreases a.len() + b.len(),
{
    if a.len() == 0 && b.len() == 0 {
    } else {
        lemma_split(a);
        lemma_split(b);
        let ua = upper_digits(a);
        let ub = upper_digits(b);
        lemma_same_value(ua, ub);
        if digits_value(a) == digits_value(b) {
            lemma_digit_unique(
                digit_at(a, 0) as int,
                digits_value(ua) as int,
                digit_at(b, 0) as int,
                digits_value(ub) as int,
            );
            assert forall|i: int| 0 <= i implies #[trigger] digit_at(a, i) == digit_at(b, i) by {
                if i > 0 {
                    assert(digit_at(ua, i - 1) == digit_at(ub, i - 1));
                }
            }
        }
        if forall|i: int| 0 <= i ==> #[trigger] digit_at(a, i) == digit_at(b, i) {
            assert(digit_at(a, 0) == digit_at(b, 0));
            assert forall|i: int| 0 <= i implies #[trigger] digit_at(ua, i) == digit_at(ub, i) by {
                assert(digit_at(a, i + 1) == digit_at(b, i + 1));
            }
        }
    }
}

/// Big-endian bytes read backwards are little-endian digits of the same value.
proof fn lemma_mirror(d: Seq<u8>, b: Seq<u8>)
    requires
        d.len() == b.len(),
        forall|j: int| 0 <= j < d.len() ==> d[j] == b[b.len() - 1 - j],
    ensures
        digits_value(d) == be_value(b),
    decreases d.len(),
{
    if d.len() > 0 {
        let d1 = d.skip(1);
        let b1 = b.drop_last();
        assert forall|j: int| 0 <= j < d1.len() implies d1[j] == b1[b1.len() - 1 - j] by {
            assert(d[j + 1] == b[b.len() - 1 - (j + 1)]);
        }
        lemma_mirror(d1, b1);
        assert(d[0] == b[b.len() - 1]);
    }
}

/// An unsigned integer of arbitrary precision.
pub struct Amount {
    digits: Vec<u8>,
}

impl View for Amount {
    type V = nat;

    closed spec fn view(&self) -> nat {
        digits_value(self.digits@)
    }
}

impl Amount {
    /// The amount `x`.
    pub fn from_u64(x: u64) -> (r: Amount)
        ensures
            r@ == x,
    {
        let zero = Amount { digits: Vec::new() };
        assert(zero@ == 0);
        zero.add_u64(x)
    }

    /// The amount written by `bytes`, most significant byte first.
    pub fn from_bytes_be(bytes: &Vec<u8>) -> (r: Amount)
        ensures
            r@ == be_value(bytes@),
    {
        let n = bytes.len();
        let mut digits: Vec<u8> = Vec::new();
        let mut i: usize = 0;
        while i < n
            invariant
                n == bytes@.len(),
                0 <= i <= n,
                digits@.len() == i,
                forall|j: int| 0 <= j < i ==> digits@[j] == bytes@[n - 1 - j],
            decreases n - i,
        {
            digits.push(bytes[n - 1 - i]);
            i = i + 1;
        }
        proof {
            lemma_mirror(digits@, bytes@);
        }
        Amount { digits }
    }

    /// The bytes of the amount, most significant first.
    pub fn to_bytes_be(&self) -> (r: Vec<u8>)
        ensures
            be_value(r@) == self@,
    {
        let n = self.digits.len();
        let mut bytes: Vec<u8> = Vec::new();
        let mut i: usize = 0;
        while i < n
            invariant
                n == self.digits@.len(),
                0 <= i <= n,
                bytes@.len() == i,
                forall|j: int| 0 <= j < i ==> bytes@[j] == self.digits@[n - 1 - j],
            decreases n - i,
        {
            bytes.push(self.digits[n - 1 - i]);
            i = i + 1;
        }
        proof {
            assert forall|j: int| 0 <= j < n implies self.digits@[j] == bytes@[n - 1 - j] by {
                assert(bytes@[n - 1 - j] == self.digits@[n - 1 - (n - 1 - j)]);
            }
            lemma_mirror(self.digits@, bytes@);
        }
        bytes
    }

    /// Whether the two amounts are equal.
    pub fn same_value(&self, other: &Amount) -> (r: bool)
        ensures
            r == (self@ == other@),
    {
        let a = &self.digits;
        let b = &other.digits;
        let n = if a.len() < b.len() {
            b.len()
        } else {
            a.len()
        };
        let mut i: usize = 0;
        while i < n
            invariant
                a@ == self.digits@,
                b@ == other.digits@,
                n >= a@.len(),
                n >= b@.len(),
                0 <= i <= n,
                forall|j: int| 0 <= j < i ==> #[trigger] digit_at(a@, j) == digit_at(b@, j),
            decreases n - i,
        {
            let x: u8 = if i < a.len() {
                a[i]
            } else {
                0
            };
            let y: u8 = if i < b.len() {
                b[i]
            } else {
                0
            };
            if x != y {
                proof {
                    lemma_same_value(a@, b@);
                    assert(digit_at(a@, i as int) != digit_at(b@, i as int));
                    assert(digits_value(a@) != digits_value(b@));
                }
                return false;
            }
            i = i + 1;
        }
        proof {
            lemma_same_value(a@, b@);
            assert forall|j: int| 0 <= j implies #[trigger] digit_at(a@, j) == digit_at(b@, j) by {
                if j >= n {
                    assert(digit_at(a@, j) == 0);
                }
            }
        }
        true
    }
    /// The sum of `self` and `x`; it never overflows.
    pub fn add_u64(&self, x: u64) -> (r: Amount)
        ensures
            r@ == self@ + x,
    {
        let ghost target = add_digits(self.digits@, x as nat);
        let mut out: Vec<u8> = Vec::new();
        let mut carry: u128 = x as u128;
        let mut i: usize = 0;
        let n = self.digits.len();
        assert(self.digits@.skip(0) =~= self.digits@);
        assert(out@ + add_digits(self.digits@, x as nat) =~= target);
        while i < n
            invariant
                n == self.digits@.len(),
                0 <= i <= n,
                carry <= u64::MAX as u128 + 1,
                out@ + add_digits(self.digits@.skip(i as int), carry as nat) == target,
            decreases n - i,
        {
            let s: u128 = self.digits[i] as u128 + carry;
            let ghost rest = self.digits@.skip(i as int);
            assert(rest.skip(1) =~= self.digits@.skip(i + 1));
            let digit = (s % 256) as u8;
            assert(out@.push(digit) + add_digits(rest.skip(1), (s / 256) as nat) =~= out@ + add_digits(
                rest,
                carry as nat,
            ));
            out.push(digit);
            carry = s / 256;
            i = i + 1;
        }
        assert(self.digits@.skip(n as int) =~= Seq::<u8>::empty());
        while carry > 0
            invariant
                out@ + add_digits(Seq::<u8>::empty(), carry as nat) == target,
            decreases carry,
        {
            let digit = (carry % 256) as u8;
            assert(out@.push(digit) + add_digits(Seq::<u8>::empty(), (carry / 256) as nat) =~= out@
                + add_digits(Seq::<u8>::empty(), carry as nat));
            out.push(digit);
            carry = carry / 256;
        }
        assert(out@ =~= target);
        proof {
            lemma_add_digits(self.digits@, x as nat);
        }
        Amount { digits: out }
    }
}

} // verus!
