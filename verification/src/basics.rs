//! The first group of demonstrations: the basics of the language.
//!
//! A demonstration that only binds values is a function without a result.
//! One that shows values returns them, and its contract says what they are;
//! putting them on screen is left to the caller. [`run_all`] gives the order
//! in which the group is run.

use vstd::prelude::*;

pub mod basic_types;
pub mod comments;
pub mod compound_types;
pub mod controls;
pub mod generics_traits;
pub mod methods;
pub mod pointer;
pub mod set_types;
pub mod variables;

verus! {

/// One demonstration of the group, named after the function that holds it.
#[derive(Clone, Copy, PartialEq, Eq, Structural, Debug)]
pub enum Demo {
    Ex1VariableRun,
    Ex2NameRules,
    Ex3UnpackRun,
    Ex4ConstRun,
    Ex5VariableShadowingRun,
    OwnershipBorrow,
    CharType,
    FunctionsType,
    UnitType,
    StatementsExpressionsType,
    ArrayType,
    EnumType,
    StringSliceType,
    StructType,
    TupleType,
    ConditionControlRun,
    LoopControlRun,
    ImplMethod,
    ConstFnRun,
    VecTest,
    BinaryHeapTest,
    BtreeMapTest,
    BtreeSetTest,
    HashmapTest,
    HashsetTest,
    LinkListTest,
    VecDequeTest,
    BoxPointerTest,
}

/// The demonstrations of the group in the order in which they run: variables,
/// basic types, compound types, control flow, methods, generics, collections,
/// pointers.
pub open spec fn demonstrations() -> Seq<Demo> {
    seq![
        Demo::Ex1VariableRun,
        Demo::Ex2NameRules,
        Demo::Ex3UnpackRun,
        Demo::Ex4ConstRun,
        Demo::Ex5VariableShadowingRun,
        Demo::OwnershipBorrow,
        Demo::CharType,
        Demo::FunctionsType,
        Demo::UnitType,
        Demo::StatementsExpressionsType,
        Demo::ArrayType,
        Demo::EnumType,
        Demo::StringSliceType,
        Demo::StructType,
        Demo::TupleType,
        Demo::ConditionControlRun,
        Demo::LoopControlRun,
        Demo::ImplMethod,
        Demo::ConstFnRun,
        Demo::VecTest,
        Demo::BinaryHeapTest,
        Demo::BtreeMapTest,
        Demo::BtreeSetTest,
        Demo::HashmapTest,
        Demo::HashsetTest,
        Demo::LinkListTest,
        Demo::VecDequeTest,
        Demo::BoxPointerTest,
    ]
}

/// The place of a demonstration in the order of the group.
pub open spec fn place(demo: Demo) -> int {
    match demo {
        Demo::Ex1VariableRun => 0,
        Demo::Ex2NameRules => 1,
        Demo::Ex3UnpackRun => 2,
        Demo::Ex4ConstRun => 3,
        Demo::Ex5VariableShadowingRun => 4,
        Demo::OwnershipBorrow => 5,
        Demo::CharType => 6,
        Demo::FunctionsType => 7,
        Demo::UnitType => 8,
        Demo::StatementsExpressionsType => 9,
        Demo::ArrayType => 10,
        Demo::EnumType => 11,
        Demo::StringSliceType => 12,
        Demo::StructType => 13,
        Demo::TupleType => 14,
        Demo::ConditionControlRun => 15,
        Demo::LoopControlRun => 16,
        Demo::ImplMethod => 17,
        Demo::ConstFnRun => 18,
        Demo::VecTest => 19,
        Demo::BinaryHeapTest => 20,
        Demo::BtreeMapTest => 21,
        Demo::BtreeSetTest => 22,
        Demo::HashmapTest => 23,
        Demo::HashsetTest => 24,
        Demo::LinkListTest => 25,
        Demo::VecDequeTest => 26,
        Demo::BoxPointerTest => 27,
    }
}

/// The demonstrations of the group, in the order in which they run.
pub fn run_all() -> (order: Vec<Demo>)
    ensures
        order@ == demonstrations(),
{
    let order: Vec<Demo> = vec![
        Demo::Ex1VariableRun,
        Demo::Ex2NameRules,
        Demo::Ex3UnpackRun,
        Demo::Ex4ConstRun,
        Demo::Ex5VariableShadowingRun,
        Demo::OwnershipBorrow,
        Demo::CharType,
        Demo::FunctionsType,
        Demo::UnitType,
        Demo::StatementsExpressionsType,
        Demo::ArrayType,
        Demo::EnumType,
        Demo::StringSliceType,
        Demo::StructType,
        Demo::TupleType,
        Demo::ConditionControlRun,
        Demo::LoopControlRun,
        Demo::ImplMethod,
        Demo::ConstFnRun,
        Demo::VecTest,
        Demo::BinaryHeapTest,
        Demo::BtreeMapTest,
        Demo::BtreeSetTest,
        Demo::HashmapTest,
        Demo::HashsetTest,
        Demo::LinkListTest,
        Demo::VecDequeTest,
        Demo::BoxPointerTest,
    ];
    assert(order@ =~= demonstrations());
    order
}

/// Every demonstration stands in the order at its place, and nowhere else:
/// a run of the group runs each demonstration exactly once.
pub proof fn lemma_each_demonstration_runs_once(demo: Demo)
    ensures
        0 <= place(demo) < demonstrations().len(),
        demonstrations()[place(demo)] == demo,
        forall|i: int|
            0 <= i < demonstrations().len() && #[trigger] demonstrations()[i] == demo ==> i
                == place(demo),
{
    assert forall|i: int|
        0 <= i < demonstrations().len() implies place(#[trigger] demonstrations()[i]) == i by {}
}

} // verus!
