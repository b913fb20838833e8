//! The pass that collects the symbols of a program.
//!
//! A symbol is the name of an identifier. The pass acts at identifiers only,
//! so it reaches every identifier of the tree, however deep it is nested, and
//! a name that is written in several places is one symbol.

use crate::grammar::{Identifier, Prog};
use crate::in_turn::in_turn;
use crate::tree_fold::TreeFold;
use vstd::hash_set::StringHashSet;
use vstd::prelude::*;

verus! {

/// The pass that collects the name of every identifier into a set.
pub struct SymbolTablePass;

impl TreeFold<StringHashSet> for SymbolTablePass {
    /// Adds the name of the identifier to the set.
    fn visit_identifier(tree: &Identifier, collector: &mut StringHashSet)
        ensures
            final(collector)@ == old(collector)@.insert(tree@),
    {
        collector.insert(tree.get_str().to_owned());
    }
}

/// The names of `ids`, in the same order.
pub open spec fn names(ids: Seq<Identifier>) -> Seq<Seq<char>> {
    ids.map_values(|id: Identifier| id@)
}

/// Once the pass has taken its turn through `ids`, the set holds what it
/// held before and the names of `ids`, and nothing else.
pub proof fn lemma_symbols_in_turn(
    ids: Seq<Identifier>,
    before: StringHashSet,
    after: StringHashSet,
)
    requires
        in_turn(
            ids,
            |id: Identifier, a: StringHashSet, b: StringHashSet|
                exists|m: &mut StringHashSet|
                    *m == a && *final(m) == b
                        && call_ensures(SymbolTablePass::visit_identifier, (&id, m), ()),
            before,
            after,
        ),
    ensures
        after@ == before@ + names(ids).to_set(),
    decreases ids.len(),
{
    if ids.len() == 0 {
        assert(before@ + names(ids).to_set() =~= before@);
    } else {
        let each = |id: Identifier, a: StringHashSet, b: StringHashSet|
            exists|m: &mut StringHashSet|
                *m == a && *final(m) == b
                    && call_ensures(SymbolTablePass::visit_identifier, (&id, m), ());
        let mid = choose|mid: StringHashSet|
            in_turn(ids.drop_last(), each, before, mid) && #[trigger] each(ids.last(), mid, after);
        lemma_symbols_in_turn(ids.drop_last(), before, mid);
        assert(names(ids) =~= names(ids.drop_last()).push(ids.last()@));
        names(ids.drop_last()).lemma_push_to_set_commute(ids.last()@);
        assert(after@ =~= before@ + names(ids).to_set());
    }
}

/// Run on a program, the pass adds to the set the name of every identifier
/// of the program, and nothing else. There are as many of these names as
/// there are distinct ones, and so no more than there are identifiers.
pub proof fn lemma_symbols_of_program(tree: Prog)
    ensures
        forall|m: &mut StringHashSet| #[trigger]
            call_ensures(SymbolTablePass::visit_prog, (&tree, m), ()) ==> final(m)@ == m@ + names(
                tree.identifiers(),
            ).to_set(),
        names(tree.identifiers()).to_set().finite(),
        names(tree.identifiers()).to_set().len() <= tree.identifiers().len(),
{
    assert forall|m: &mut StringHashSet| #[trigger]
        call_ensures(SymbolTablePass::visit_prog, (&tree, m), ()) implies final(m)@ == m@ + names(
        tree.identifiers(),
    ).to_set() by {
        lemma_symbols_in_turn(tree.identifiers(), *m, *final(m));
    }
    vstd::seq_lib::seq_to_set_is_finite(names(tree.identifiers()));
    names(tree.identifiers()).lemma_cardinality_of_set();
}

impl SymbolTablePass {
    /// The symbols of a program: the set of the names of its identifiers.
    ///
    /// There are as many symbols as there are distinct names, and so no
    /// more than there are identifiers in the program.
    pub fn collect(tree: &Prog) -> (symbols: StringHashSet)
        ensures
            symbols@ == names(tree.identifiers()).to_set(),
            symbols@.finite(),
            symbols@.len() <= tree.identifiers().len(),
    {
        let mut symbols = StringHashSet::new();
        let ghost before = symbols;
        Self::visit_prog(tree, &mut symbols);
        proof {
            lemma_symbols_in_turn(tree.identifiers(), before, symbols);
            lemma_symbols_of_program(*tree);
            assert(symbols@ =~= names(tree.identifiers()).to_set());
        }
        symbols
    }
}

/// The pass is deterministic: from sets that hold the same names, two runs
/// on one program end with sets that hold the same names.
pub proof fn lemma_symbol_table_deterministic(tree: Prog)
    ensures
        forall|first: &mut StringHashSet, second: &mut StringHashSet|
            #![trigger
                call_ensures(SymbolTablePass::visit_prog, (&tree, first), ()),
                call_ensures(SymbolTablePass::visit_prog, (&tree, second), ())
            ]
            {
                &&& call_ensures(SymbolTablePass::visit_prog, (&tree, first), ())
                &&& call_ensures(SymbolTablePass::visit_prog, (&tree, second), ())
                &&& first@ == second@
            } ==> final(first)@ == final(second)@,
{
    lemma_symbols_of_program(tree);
}

} // verus!
