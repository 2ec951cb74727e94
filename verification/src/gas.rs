//! Metering: what a native call costs, from the cost table and the size of
//! its dominant operand.

use vstd::prelude::*;

verus! {

/// The integer type in which all costs are carried.
pub type GasCarrier = u64;

/// An amount of gas.
#[derive(Clone, Copy, Debug, PartialEq, Eq, Structural)]
pub struct GasUnits(pub GasCarrier);

impl View for GasUnits {
    type V = nat;

    open spec fn view(&self) -> nat {
        self.0 as nat
    }
}

/// The size of an operand in the abstract unit of memory.
#[derive(Clone, Copy, Debug, PartialEq, Eq, Structural)]
pub struct AbstractMemorySize(pub GasCarrier);

impl View for AbstractMemorySize {
    type V = nat;

    open spec fn view(&self) -> nat {
        self.0 as nat
    }
}

impl AbstractMemorySize {
    pub fn new(size: GasCarrier) -> (memory_size: AbstractMemorySize)
        ensures
            memory_size@ == size,
    {
        AbstractMemorySize(size)
    }

    pub fn get(self) -> (size: GasCarrier)
        ensures
            size == self@,
    {
        self.0
    }
}

impl GasUnits {
    pub fn new(units: GasCarrier) -> (gas: GasUnits)
        ensures
            gas@ == units,
    {
        GasUnits(units)
    }

    pub fn get(self) -> (units: GasCarrier)
        ensures
            units == self@,
    {
        self.0
    }

    /// The sum of two amounts.
    pub fn add(self, other: GasUnits) -> (sum: GasUnits)
        requires
            self@ + other@ <= GasCarrier::MAX,
        ensures
            sum@ == self@ + other@,
    {
        GasUnits(self.0 + other.0)
    }

    /// A unit cost scaled by a size.
    pub fn mul(self, size: AbstractMemorySize) -> (product: GasUnits)
        requires
            self@ * size@ <= GasCarrier::MAX,
        ensures
            product@ == self@ * size@,
    {
        GasUnits(self.0 * size.0)
    }
}

/// The unit cost of one operation, in its two components.
#[derive(Clone, Copy, Debug, PartialEq, Eq, Structural)]
pub struct GasCost {
    pub instruction_gas: GasUnits,
    pub memory_gas: GasUnits,
}

impl GasCost {
    pub fn new(instruction_gas: GasCarrier, memory_gas: GasCarrier) -> (cost: GasCost)
        ensures
            cost.instruction_gas@ == instruction_gas,
            cost.memory_gas@ == memory_gas,
    {
        GasCost { instruction_gas: GasUnits(instruction_gas), memory_gas: GasUnits(memory_gas) }
    }

    /// The base unit cost: both components together.
    pub open spec fn spec_total(self) -> nat {
        self.instruction_gas@ + self.memory_gas@
    }

    /// Whether the base unit cost can be carried.
    pub open spec fn total_fits(self) -> bool {
        self.spec_total() <= GasCarrier::MAX
    }

    pub fn total(&self) -> (total: GasUnits)
        requires
            self.total_fits(),
        ensures
            total@ == self.spec_total(),
    {
        self.instruction_gas.add(self.memory_gas)
    }
}

/// The key under which the cost table prices a native operation.
#[derive(Clone, Copy, Debug, PartialEq, Eq, Structural)]
pub enum NativeCostIndex {
    Sha2_256,
    Sha3_256,
    Ed25519Verify,
    Ed25519ThresholdVerify,
    AddressToBytes,
    U64ToBytes,
    BytearrayConcat,
    Length,
    Empty,
    Borrow,
    BorrowMut,
    PushBack,
    PopBack,
    DestroyEmpty,
    Swap,
    WriteToEventStore,
    SaveAccount,
}

/// How many native operations the cost table prices.
pub const NUMBER_OF_NATIVE_FUNCTIONS: usize = 17;

impl NativeCostIndex {
    /// The position of the key in the table of native costs.
    pub open spec fn spec_index(self) -> usize {
        match self {
            NativeCostIndex::Sha2_256 => 0,
            NativeCostIndex::Sha3_256 => 1,
            NativeCostIndex::Ed25519Verify => 2,
            NativeCostIndex::Ed25519ThresholdVerify => 3,
            NativeCostIndex::AddressToBytes => 4,
            NativeCostIndex::U64ToBytes => 5,
            NativeCostIndex::BytearrayConcat => 6,
            NativeCostIndex::Length => 7,
            NativeCostIndex::Empty => 8,
            NativeCostIndex::Borrow => 9,
            NativeCostIndex::BorrowMut => 10,
            NativeCostIndex::PushBack => 11,
            NativeCostIndex::PopBack => 12,
            NativeCostIndex::DestroyEmpty => 13,
            NativeCostIndex::Swap => 14,
            NativeCostIndex::WriteToEventStore => 15,
            NativeCostIndex::SaveAccount => 16,
        }
    }

    #[verifier::when_used_as_spec(spec_index)]
    pub fn index(self) -> (position: usize)
        ensures
            position == self.spec_index(),
            position < NUMBER_OF_NATIVE_FUNCTIONS,
    {
        match self {
            NativeCostIndex::Sha2_256 => 0,
            NativeCostIndex::Sha3_256 => 1,
            NativeCostIndex::Ed25519Verify => 2,
            NativeCostIndex::Ed25519ThresholdVerify => 3,
            NativeCostIndex::AddressToBytes => 4,
            NativeCostIndex::U64ToBytes => 5,
            NativeCostIndex::BytearrayConcat => 6,
            NativeCostIndex::Length => 7,
            NativeCostIndex::Empty => 8,
            NativeCostIndex::Borrow => 9,
            NativeCostIndex::BorrowMut => 10,
            NativeCostIndex::PushBack => 11,
            NativeCostIndex::PopBack => 12,
            NativeCostIndex::DestroyEmpty => 13,
            NativeCostIndex::Swap => 14,
            NativeCostIndex::WriteToEventStore => 15,
            NativeCostIndex::SaveAccount => 16,
        }
    }
}

/// Whether a sequence of unit costs can serve as the table of native costs:
/// it prices every key, and every base unit cost in it can be carried.
pub open spec fn prices_every_native(costs: Seq<GasCost>) -> bool {
    &&& costs.len() == NUMBER_OF_NATIVE_FUNCTIONS
    &&& forall|i: int| 0 <= i < costs.len() ==> (#[trigger] costs[i]).total_fits()
}

/// The pricing data of the native operations: closed, fixed and read-only.
///
/// A table holds one unit cost for every key, so a lookup never misses.
#[derive(Debug)]
pub struct CostTable {
    native_table: Vec<GasCost>,
}

impl View for CostTable {
    type V = Seq<GasCost>;

    closed spec fn view(&self) -> Seq<GasCost> {
        self.native_table@
    }
}

impl CostTable {
    #[verifier::type_invariant]
    spec fn well_formed(&self) -> bool {
        prices_every_native(self.native_table@)
    }

    /// The base unit cost that the table holds for a key.
    pub open spec fn base_cost(&self, key: NativeCostIndex) -> nat {
        self@[key.spec_index() as int].spec_total()
    }

    /// Makes a table of the unit costs in the order of their keys, if they
    /// price every key and every base unit cost can be carried.
    pub fn new(native_table: Vec<GasCost>) -> (table: Option<CostTable>)
        ensures
            table is Some <==> prices_every_native(native_table@),
            table matches Some(t) ==> t@ == native_table@,
    {
        if native_table.len() != NUMBER_OF_NATIVE_FUNCTIONS {
            return None;
        }
        let mut i: usize = 0;
        while i < native_table.len()
            invariant
                i <= native_table.len(),
                forall|j: int| 0 <= j < i ==> (#[trigger] native_table@[j]).total_fits(),
            decreases native_table.len() - i,
        {
            let cost = &native_table[i];
            if cost.instruction_gas.0 > GasCarrier::MAX - cost.memory_gas.0 {
                assert(!native_table@[i as int].total_fits());
                return None;
            }
            i = i + 1;
        }
        Some(CostTable { native_table })
    }

    /// The unit cost that the table holds for a key.
    pub fn native_cost(&self, key: NativeCostIndex) -> (cost: &GasCost)
        ensures
            prices_every_native(self@),
            *cost == self@[key.spec_index() as int],
            cost.total_fits(),
            cost.spec_total() == self.base_cost(key),
    {
        proof {
            use_type_invariant(self);
        }
        &self.native_table[key.index()]
    }
}

/// What a native operation costs on an operand of the given size: the base
/// unit cost under the key, once for every unit of size.
pub open spec fn spec_native_gas(table: &CostTable, key: NativeCostIndex, size: nat) -> nat {
    table.base_cost(key) * size
}

/// The cost of a native operation, scaled linearly by the size of its
/// dominant operand.
pub fn native_gas(table: &CostTable, key: NativeCostIndex, size: usize) -> (cost: GasUnits)
    requires
        spec_native_gas(table, key, size as nat) <= GasCarrier::MAX,
    ensures
        cost@ == spec_native_gas(table, key, size as nat),
{
    let gas_amt = table.native_cost(key);
    let memory_size = AbstractMemorySize::new(size as GasCarrier);
    gas_amt.total().mul(memory_size)
}

/// The cost of a native operation where it can be carried, and nothing where
/// it is too large.
pub fn checked_native_gas(table: &CostTable, key: NativeCostIndex, size: usize) -> (cost: Option<
    GasUnits,
>)
    ensures
        match cost {
            Some(cost) => cost@ == spec_native_gas(table, key, size as nat),
            None => spec_native_gas(table, key, size as nat) > GasCarrier::MAX,
        },
{
    let base = table.native_cost(key).total().get();
    match base.checked_mul(size as GasCarrier) {
        Some(_) => Some(native_gas(table, key, size)),
        None => None,
    }
}

/// The cost never decreases when the operand grows, the key being fixed.
pub proof fn lemma_native_gas_monotonic(
    table: &CostTable,
    key: NativeCostIndex,
    smaller: nat,
    larger: nat,
)
    requires
        smaller <= larger,
    ensures
        spec_native_gas(table, key, smaller) <= spec_native_gas(table, key, larger),
{
    let base = table.base_cost(key);
    assert(base * smaller <= base * larger) by (nonlinear_arith)
        requires
            smaller <= larger,
    ;
}

/// An operand of size zero costs nothing, whatever the key.
pub proof fn lemma_native_gas_of_empty_operand(table: &CostTable, key: NativeCostIndex)
    ensures
        spec_native_gas(table, key, 0) == 0,
{
    let base = table.base_cost(key);
    assert(base * 0 == 0) by (nonlinear_arith);
}

/// On an operand of size zero the cost is the base unit cost, under a key
/// whose base unit cost is zero.
pub proof fn lemma_native_gas_of_empty_operand_is_base(table: &CostTable, key: NativeCostIndex)
    requires
        table.base_cost(key) == 0,
    ensures
        spec_native_gas(table, key, 0) == table.base_cost(key),
{
    lemma_native_gas_of_empty_operand(table, key);
}

} // verus!
