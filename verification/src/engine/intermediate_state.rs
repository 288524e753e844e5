use crate::engine::value_keys::KeyValues;
use crate::fixed::{at_most, magnitude};
use vstd::prelude::*;

verus! {

/// A positive rational number `num / den`, by which a multiplier scales a key.
/// A factor of zero, or a negative one, cannot be made.
#[derive(Clone, Copy, Debug, PartialEq, Eq, Structural)]
pub struct Factor {
    num: u32,
    den: u32,
}

impl Factor {
    #[verifier::type_invariant]
    spec fn positive(self) -> bool {
        self.num > 0 && self.den > 0
    }

    /// The numerator.
    pub closed spec fn num(self) -> int {
        self.num as int
    }

    /// The denominator.
    pub closed spec fn den(self) -> int {
        self.den as int
    }

    /// Whether neither part is zero, as holds of every factor that was made.
    pub open spec fn is_positive(self) -> bool {
        self.num() > 0 && self.den() > 0
    }

    /// The factor `num / den`, as a value that contracts can name.
    pub closed spec fn ratio(num: u32, den: u32) -> Factor {
        Factor { num, den }
    }

    /// The parts of `ratio(num, den)` are `num` and `den`.
    pub proof fn lemma_ratio(num: u32, den: u32)
        ensures
            Factor::ratio(num, den).num() == num,
            Factor::ratio(num, den).den() == den,
    {
    }

    /// The factor `num / den`.
    pub fn new(num: u32, den: u32) -> (factor: Factor)
        requires
            num > 0,
            den > 0,
        ensures
            factor == Factor::ratio(num, den),
            factor.num() == num,
            factor.den() == den,
    {
        Factor { num, den }
    }

    /// The numerator.
    pub fn numerator(&self) -> (num: u32)
        ensures
            num == self.num(),
            num > 0,
    {
        proof {
            use_type_invariant(self);
        }
        self.num
    }

    /// The denominator.
    pub fn denominator(&self) -> (den: u32)
        ensures
            den == self.den(),
            den > 0,
    {
        proof {
            use_type_invariant(self);
        }
        self.den
    }
}

/// One effect on one key, as an entity hands it in during a tick.
#[derive(Clone, Copy, Debug)]
pub enum Contribution {
    /// An amount added to the key's base sum.
    Base { key: KeyValues, amount: i64 },
    /// A factor applied to the key's base sum. The label says where the factor
    /// comes from; it is shown to the player and decides nothing.
    Multiplier { key: KeyValues, factor: Factor, label: &'static str },
}

impl Contribution {
    /// The key that the contribution targets.
    pub open spec fn key(self) -> KeyValues {
        match self {
            Contribution::Base { key, .. } => key,
            Contribution::Multiplier { key, .. } => key,
        }
    }

    /// Whether the contribution can be handed to an accumulator.
    pub open spec fn is_valid(self) -> bool {
        match self {
            Contribution::Base { .. } => true,
            Contribution::Multiplier { factor, .. } => factor.is_positive(),
        }
    }
}

/// The three running totals that a key has: the sum of its bases, and the
/// products of the numerators and of the denominators of its multipliers.
pub enum Total {
    BaseSum,
    Numerator,
    Denominator,
}

impl Total {
    /// The total of no contribution at all.
    pub open spec fn unit(self) -> int {
        match self {
            Total::BaseSum => 0,
            _ => 1,
        }
    }

    /// What one contribution adds to the total of `key`; the unit, where it
    /// targets another key or another total.
    pub open spec fn term(self, c: Contribution, key: KeyValues) -> int {
        match (self, c) {
            (Total::BaseSum, Contribution::Base { key: k, amount }) if k == key => amount as int,
            (Total::Numerator, Contribution::Multiplier { key: k, factor, .. }) if k == key
                => factor.num(),
            (Total::Denominator, Contribution::Multiplier { key: k, factor, .. }) if k == key
                => factor.den(),
            _ => self.unit(),
        }
    }

    /// Bases add up, factors multiply.
    pub open spec fn combine(self, so_far: int, term: int) -> int {
        match self {
            Total::BaseSum => so_far + term,
            _ => so_far * term,
        }
    }

    /// The total of `key` over a whole log of contributions.
    pub open spec fn of(self, log: Seq<Contribution>, key: KeyValues) -> int
        decreases log.len(),
    {
        if log.len() == 0 {
            self.unit()
        } else {
            self.combine(self.of(log.drop_last(), key), self.term(log.last(), key))
        }
    }
}

/// The largest magnitude that a resolved value can have.
pub open spec fn value_limit() -> int {
    i64::MAX as int
}

/// The largest product of numerators, or of denominators, that is kept exactly.
pub open spec fn product_limit() -> int {
    u64::MAX as int
}

/// `base * num / den`, rounded toward zero, where the magnitude of the base
/// and of the result are held to `value_limit()` and the two products to
/// `product_limit()`.
pub open spec fn scaled(base: int, num: int, den: int) -> int {
    let b = at_most(magnitude(base), value_limit());
    let n = at_most(num, product_limit());
    let d = at_most(den, product_limit());
    let m = at_most((b * n) / d, value_limit());
    if base < 0 {
        -m
    } else {
        m
    }
}

/// The value that a log of contributions gives a key: the sum of its bases
/// times the product of its multipliers. A key that nothing targets has the
/// sum 0 and the product 1.
pub open spec fn resolved(log: Seq<Contribution>, key: KeyValues) -> int {
    scaled(
        Total::BaseSum.of(log, key),
        Total::Numerator.of(log, key),
        Total::Denominator.of(log, key),
    )
}

/// Whether every contribution of the log can be handed to an accumulator.
pub open spec fn all_valid(log: Seq<Contribution>) -> bool {
    forall|i: int| 0 <= i < log.len() ==> (#[trigger] log[i]).is_valid()
}

impl Total {
    /// One more contribution at the end of the log combines its term with the
    /// total so far.
    pub proof fn lemma_push(self, log: Seq<Contribution>, c: Contribution, key: KeyValues)
        ensures
            self.of(log.push(c), key) == self.combine(self.of(log, key), self.term(c, key)),
    {
        assert(log.push(c).drop_last() =~= log);
    }

    /// A contribution can be taken out of any place of the log and combined
    /// last.
    pub proof fn lemma_remove(self, log: Seq<Contribution>, key: KeyValues, i: int)
        requires
            0 <= i < log.len(),
        ensures
            self.of(log, key) == self.combine(self.of(log.remove(i), key), self.term(log[i], key)),
        decreases log.len(),
    {
        if i < log.len() - 1 {
            let front = log.drop_last();
            self.lemma_remove(front, key, i);
            assert(log.remove(i).drop_last() =~= front.remove(i));
            let rest = self.of(front.remove(i), key);
            let x = self.term(log[i], key);
            let y = self.term(log.last(), key);
            assert(self.combine(self.combine(rest, x), y) == self.combine(
                self.combine(rest, y),
                x,
            )) by (nonlinear_arith)
                requires
                    true,
            {
                assert((rest + x) + y == (rest + y) + x);
                assert((rest * x) * y == (rest * y) * x);
            }
        }
    }

    /// Two logs that hold the same contributions, whatever their order, have
    /// the same total.
    pub proof fn lemma_permutation(
        self,
        first: Seq<Contribution>,
        second: Seq<Contribution>,
        key: KeyValues,
    )
        requires
            first.to_multiset() == second.to_multiset(),
        ensures
            self.of(first, key) == self.of(second, key),
        decreases first.len(),
    {
        broadcast use vstd::seq_lib::group_to_multiset_ensures;

        vstd::seq_lib::to_multiset_len(first);
        vstd::seq_lib::to_multiset_len(second);
        if first.len() > 0 {
            let c = first.last();
            assert(second.to_multiset().count(c) > 0);
            let i = choose|i: int| 0 <= i < second.len() && second[i] == c;
            assert(first.remove(first.len() - 1) =~= first.drop_last());
            self.lemma_permutation(first.drop_last(), second.remove(i), key);
            self.lemma_remove(second, key, i);
        }
    }

    /// A product of positive factors is positive.
    pub proof fn lemma_product_positive(self, log: Seq<Contribution>, key: KeyValues)
        requires
            all_valid(log),
            !(self is BaseSum),
        ensures
            self.of(log, key) >= 1,
        decreases log.len(),
    {
        if log.len() > 0 {
            self.lemma_product_positive(log.drop_last(), key);
            let so_far = self.of(log.drop_last(), key);
            let t = self.term(log.last(), key);
            assert(so_far * t >= 1) by (nonlinear_arith)
                requires
                    so_far >= 1,
                    t >= 1,
            ;
        }
    }

    /// A log in which nothing targets `key` leaves the total of `key` at its
    /// unit.
    pub proof fn lemma_untouched(self, log: Seq<Contribution>, key: KeyValues)
        requires
            forall|i: int| 0 <= i < log.len() ==> (#[trigger] log[i]).key() != key,
        ensures
            self.of(log, key) == self.unit(),
        decreases log.len(),
    {
        if log.len() > 0 {
            self.lemma_untouched(log.drop_last(), key);
        }
    }
}

/// The resolved value of every key is the same for all orders in which the
/// contributions of a tick are handed in.
pub proof fn lemma_resolve_order_independent(
    first: Seq<Contribution>,
    second: Seq<Contribution>,
    key: KeyValues,
)
    requires
        first.to_multiset() == second.to_multiset(),
    ensures
        resolved(first, key) == resolved(second, key),
{
    Total::BaseSum.lemma_permutation(first, second, key);
    Total::Numerator.lemma_permutation(first, second, key);
    Total::Denominator.lemma_permutation(first, second, key);
}

/// A key that no contribution targets resolves to zero.
pub proof fn lemma_resolve_untouched(log: Seq<Contribution>, key: KeyValues)
    requires
        forall|i: int| 0 <= i < log.len() ==> (#[trigger] log[i]).key() != key,
    ensures
        resolved(log, key) == 0,
{
    Total::BaseSum.lemma_untouched(log, key);
    Total::Numerator.lemma_untouched(log, key);
    Total::Denominator.lemma_untouched(log, key);
}

/// Where the base sum and both products are within their limits, the resolved
/// value is the exact quotient, rounded toward zero and held to the limit.
pub proof fn lemma_resolve_exact(log: Seq<Contribution>, key: KeyValues)
    requires
        all_valid(log),
        magnitude(Total::BaseSum.of(log, key)) <= value_limit(),
        Total::Numerator.of(log, key) <= product_limit(),
        Total::Denominator.of(log, key) <= product_limit(),
    ensures
        magnitude(resolved(log, key)) == at_most(
            magnitude(Total::BaseSum.of(log, key)) * Total::Numerator.of(log, key)
                / Total::Denominator.of(log, key),
            value_limit(),
        ),
        Total::BaseSum.of(log, key) < 0 ==> resolved(log, key) <= 0,
        Total::BaseSum.of(log, key) >= 0 ==> resolved(log, key) >= 0,
{
    Total::Numerator.lemma_product_positive(log, key);
    Total::Denominator.lemma_product_positive(log, key);
}

/// What every content entity can do: hand its effects to the accumulator.
/// An entity writes; it never reads what others wrote.
pub trait Gain {
    /// The contributions that the entity makes in one tick, in the order in
    /// which it hands them in.
    spec fn gains(&self) -> Seq<Contribution>;

    /// Hands the entity's contributions to the accumulator.
    fn gain(&self, intermediate: &mut IntermediateState)
        ensures
            final(intermediate)@ == old(intermediate)@ + self.gains(),
    ;
}

/// The scratch accumulator of one tick. Every entity hands its contributions
/// in; nothing is read back before all of them are in, so the order in which
/// they arrive cannot matter.
pub struct IntermediateState {
    contributions: Vec<Contribution>,
}

impl View for IntermediateState {
    type V = Seq<Contribution>;

    /// The contributions handed in so far, oldest first.
    closed spec fn view(&self) -> Seq<Contribution> {
        self.contributions@
    }
}

/// `x * y`, held to `u64::MAX`.
fn product_at_most(x: u64, y: u32) -> (p: u64)
    ensures
        p == at_most(x * y, product_limit()),
{
    assert(x * y <= 0xffff_ffff_ffff_ffff * 0xffff_ffff) by (nonlinear_arith)
        requires
            0 <= x <= 0xffff_ffff_ffff_ffff,
            0 <= y <= 0xffff_ffff,
    ;
    let wide: u128 = (x as u128) * (y as u128);
    if wide > u64::MAX as u128 {
        u64::MAX
    } else {
        wide as u64
    }
}

/// Holding a product to the limit before a further positive factor is
/// applied gives what holding the whole product to the limit gives, and the
/// product stays positive.
proof fn lemma_limit_once(so_far: int, term: int)
    requires
        so_far >= 1,
        term >= 1,
    ensures
        at_most(at_most(so_far, product_limit()) * term, product_limit()) == at_most(
            so_far * term,
            product_limit(),
        ),
        so_far * term >= 1,
{
    assert(so_far * term >= so_far) by (nonlinear_arith)
        requires
            so_far >= 1,
            term >= 1,
    ;
    assert(product_limit() * term >= product_limit()) by (nonlinear_arith)
        requires
            term >= 1,
    ;
}

/// The executable form of `scaled`.
fn scale(base: i128, num: u64, den: u64) -> (value: i64)
    requires
        den >= 1,
    ensures
        value == scaled(base as int, num as int, den as int),
{
    let limit: u128 = i64::MAX as u128;
    let b: u128 = if base < 0 {
        if base < -(i64::MAX as i128) {
            limit
        } else {
            (-base) as u128
        }
    } else if base > i64::MAX as i128 {
        limit
    } else {
        base as u128
    };
    assert(b * num <= 0x7fff_ffff_ffff_ffff * 0xffff_ffff_ffff_ffff) by (nonlinear_arith)
        requires
            0 <= b <= 0x7fff_ffff_ffff_ffff,
            0 <= num <= 0xffff_ffff_ffff_ffff,
    ;
    let quotient: u128 = (b * (num as u128)) / (den as u128);
    let m: i64 = if quotient > limit {
        i64::MAX
    } else {
        quotient as i64
    };
    if base < 0 {
        -m
    } else {
        m
    }
}

impl IntermediateState {
    /// An accumulator with nothing in it, as every tick starts with.
    pub fn new() -> (fresh: IntermediateState)
        ensures
            fresh@ == Seq::<Contribution>::empty(),
    {
        IntermediateState { contributions: Vec::new() }
    }

    /// Adds `amount` to the base sum of `key`.
    pub fn add_base(&mut self, key: KeyValues, amount: i64)
        ensures
            final(self)@ == old(self)@.push(Contribution::Base { key, amount }),
    {
        self.contributions.push(Contribution::Base { key, amount });
    }

    /// Appends `factor` to the multipliers of `key`.
    pub fn add_multiplier(&mut self, key: KeyValues, factor: Factor, label: &'static str)
        ensures
            final(self)@ == old(self)@.push(Contribution::Multiplier { key, factor, label }),
    {
        self.contributions.push(Contribution::Multiplier { key, factor, label });
    }

    /// The contributions handed in so far, oldest first, for display.
    pub fn contributions(&self) -> (log: &Vec<Contribution>)
        ensures
            log@ == self@,
    {
        &self.contributions
    }

    /// The value that the contributions handed in so far give `key`.
    pub fn resolve(&self, key: KeyValues) -> (value: i64)
        ensures
            value == resolved(self@, key),
            all_valid(self@),
    {
        let ghost log = self.contributions@;
        let mut base: i128 = 0;
        let mut num: u64 = 1;
        let mut den: u64 = 1;
        let mut i: usize = 0;
        while i < self.contributions.len()
            invariant
                log == self.contributions@,
                all_valid(log.take(i as int)),
                i <= log.len(),
                base == Total::BaseSum.of(log.take(i as int), key),
                -(i * 0x8000_0000_0000_0000) <= base <= i * 0x8000_0000_0000_0000,
                Total::Numerator.of(log.take(i as int), key) >= 1,
                Total::Denominator.of(log.take(i as int), key) >= 1,
                num == at_most(Total::Numerator.of(log.take(i as int), key), product_limit()),
                den == at_most(Total::Denominator.of(log.take(i as int), key), product_limit()),
            decreases log.len() - i,
        {
            let ghost seen = log.take(i as int);
            let entry = &self.contributions[i];
            proof {
                match entry {
                    Contribution::Base { .. } => {},
                    Contribution::Multiplier { factor, .. } => {
                        use_type_invariant(factor);
                    },
                }
                assert(log.take(i + 1) =~= seen.push(log[i as int]));
                Total::BaseSum.lemma_push(seen, log[i as int], key);
                Total::Numerator.lemma_push(seen, log[i as int], key);
                Total::Denominator.lemma_push(seen, log[i as int], key);
                lemma_limit_once(
                    Total::Numerator.of(seen, key),
                    Total::Numerator.term(log[i as int], key),
                );
                lemma_limit_once(
                    Total::Denominator.of(seen, key),
                    Total::Denominator.term(log[i as int], key),
                );
            }
            match entry {
                Contribution::Base { key: k, amount } => {
                    if *k == key {
                        base = base + (*amount as i128);
                    }
                },
                Contribution::Multiplier { key: k, factor, .. } => {
                    if *k == key {
                        num = product_at_most(num, factor.numerator());
                        den = product_at_most(den, factor.denominator());
                    }
                },
            }
            i = i + 1;
        }
        assert(log.take(i as int) =~= log);
        scale(base, num, den)
    }
}

} // verus!
