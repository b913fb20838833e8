//! Equality of syntax trees.
//!
//! Two nodes are equal exactly when their views are: when they hold the same
//! values in the same places, wherever and however each was built.

use crate::grammar::{
    Condition, Connection, Connections, Expr, ExprRight, Globals, Identifier, IfBlock, IfBlocks,
    LValue, Operand, Packet, PacketField, PacketFields, Packets, Prog, Snippet, Snippets,
    Statement, Statements, Value, VarInfo, VarType, VariableDecl, VariableDecls, VariablePair,
};
use vstd::prelude::*;
use vstd::string::*;
use vstd::std_specs::cmp::PartialEqSpecImpl;

verus! {

/// Whether two strings hold the same characters, decided on their bytes.
pub fn same_text(a: &str, b: &str) -> (equal: bool)
    ensures
        equal == (a@ == b@),
{
    let x = a.as_bytes();
    let y = b.as_bytes();
    proof {
        vstd::utf8::encode_utf8_decode_utf8(a@);
        vstd::utf8::encode_utf8_decode_utf8(b@);
    }
    if x.len() != y.len() {
        return false;
    }
    let mut i: usize = 0;
    while i < x.len()
        invariant
            i <= x.len(),
            x.len() == y.len(),
            forall|j: int| 0 <= j < i ==> x@[j] == y@[j],
            x@ == a.spec_bytes(),
            y@ == b.spec_bytes(),
            vstd::utf8::decode_utf8(a.spec_bytes()) == a@,
            vstd::utf8::decode_utf8(b.spec_bytes()) == b@,
        decreases x.len() - i,
    {
        if x[i] != y[i] {
            return false;
        }
        i = i + 1;
    }
    assert(x@ =~= y@);
    true
}

impl<'a> PartialEq for Identifier<'a> {
    fn eq(&self, other: &Self) -> (equal: bool) {
        same_text(self.id_name, other.id_name)
    }
}

impl<'a> PartialEqSpecImpl for Identifier<'a> {
    open spec fn obeys_eq_spec() -> bool {
        true
    }

    open spec fn eq_spec(&self, other: &Self) -> bool {
        self@ == other@
    }
}

impl PartialEq for Value {
    fn eq(&self, other: &Self) -> (equal: bool) {
        self.value == other.value
    }
}

impl PartialEqSpecImpl for Value {
    open spec fn obeys_eq_spec() -> bool {
        true
    }

    open spec fn eq_spec(&self, other: &Self) -> bool {
        self@ == other@
    }
}

/// Two sequences have the same views, item by item, exactly when the
/// sequences of their views are equal.
pub proof fn lemma_same_views<T, V>(a: Seq<T>, b: Seq<T>, view: spec_fn(T) -> V)
    ensures
        (a.map_values(view) == b.map_values(view)) <==> (a.len() == b.len() && forall|i: int|
            0 <= i < a.len() ==> view(a[i]) == view(b[i])),
{
    if a.map_values(view) == b.map_values(view) {
        assert(a.len() == a.map_values(view).len());
        assert(b.len() == b.map_values(view).len());
        assert forall|i: int| 0 <= i < a.len() implies view(a[i]) == view(b[i]) by {
            assert(a.map_values(view)[i] == view(a[i]));
            assert(b.map_values(view)[i] == view(b[i]));
        }
    }
    if a.len() == b.len() && forall|i: int| 0 <= i < a.len() ==> view(a[i]) == view(b[i]) {
        assert(a.map_values(view) =~= b.map_values(view));
    }
}

/// Whether two operands have the same view.
pub fn operand_eq(a: &Operand, b: &Operand) -> (equal: bool)
    ensures
        equal == (a@ == b@),
    decreases a,
{
    match (a, b) {
        (Operand::LValue(x), Operand::LValue(y)) => lvalue_eq(x, y),
        (Operand::Value(x), Operand::Value(y)) => x.value == y.value,
        _ => false,
    }
}

/// Whether two l-values have the same view.
pub fn lvalue_eq(a: &LValue, b: &LValue) -> (equal: bool)
    ensures
        equal == (a@ == b@),
    decreases a,
{
    match (a, b) {
        (LValue::Scalar(x), LValue::Scalar(y)) => x == y,
        (LValue::Array(x, i), LValue::Array(y, j)) => x == y && operand_eq(i, j),
        (LValue::Field(x, f), LValue::Field(y, g)) => x == y && f == g,
        _ => false,
    }
}

impl<'a> PartialEq for Operand<'a> {
    fn eq(&self, other: &Self) -> (equal: bool) {
        operand_eq(self, other)
    }
}

impl<'a> PartialEqSpecImpl for Operand<'a> {
    open spec fn obeys_eq_spec() -> bool {
        true
    }

    open spec fn eq_spec(&self, other: &Self) -> bool {
        self@ == other@
    }
}

impl<'a> PartialEq for LValue<'a> {
    fn eq(&self, other: &Self) -> (equal: bool) {
        lvalue_eq(self, other)
    }
}

impl<'a> PartialEqSpecImpl for LValue<'a> {
    open spec fn obeys_eq_spec() -> bool {
        true
    }

    open spec fn eq_spec(&self, other: &Self) -> bool {
        self@ == other@
    }
}

impl<'a> PartialEq for ExprRight<'a> {
    fn eq(&self, other: &Self) -> (equal: bool) {
        match (self, other) {
            (ExprRight::BinOp(op, x), ExprRight::BinOp(oq, y)) => *op == *oq && x == y,
            (ExprRight::Cond(x, u), ExprRight::Cond(y, v)) => x == y && u == v,
            (ExprRight::Empty(), ExprRight::Empty()) => true,
            _ => false,
        }
    }
}

impl<'a> PartialEqSpecImpl for ExprRight<'a> {
    open spec fn obeys_eq_spec() -> bool {
        true
    }

    open spec fn eq_spec(&self, other: &Self) -> bool {
        self@ == other@
    }
}

impl<'a> PartialEq for Expr<'a> {
    fn eq(&self, other: &Self) -> (equal: bool) {
        self.op1 == other.op1
            && self.expr_right == other.expr_right
    }
}

impl<'a> PartialEqSpecImpl for Expr<'a> {
    open spec fn obeys_eq_spec() -> bool {
        true
    }

    open spec fn eq_spec(&self, other: &Self) -> bool {
        self@ == other@
    }
}

impl<'a> PartialEq for Statement<'a> {
    fn eq(&self, other: &Self) -> (equal: bool) {
        self.lvalue == other.lvalue
            && self.expr == other.expr
    }
}

impl<'a> PartialEqSpecImpl for Statement<'a> {
    open spec fn obeys_eq_spec() -> bool {
        true
    }

    open spec fn eq_spec(&self, other: &Self) -> bool {
        self@ == other@
    }
}

impl<'a> PartialEq for Statements<'a> {
    fn eq(&self, other: &Self) -> (equal: bool) {
        let equal = self.stmt_vector == other.stmt_vector;
        proof {
            lemma_same_views(self.stmt_vector@, other.stmt_vector@, |x: Statement<'a>| x@);
        }
        equal
    }
}

impl<'a> PartialEqSpecImpl for Statements<'a> {
    open spec fn obeys_eq_spec() -> bool {
        true
    }

    open spec fn eq_spec(&self, other: &Self) -> bool {
        self@ == other@
    }
}

impl<'a> PartialEq for Condition<'a> {
    fn eq(&self, other: &Self) -> (equal: bool) {
        self.expr == other.expr
    }
}

impl<'a> PartialEqSpecImpl for Condition<'a> {
    open spec fn obeys_eq_spec() -> bool {
        true
    }

    open spec fn eq_spec(&self, other: &Self) -> bool {
        self@ == other@
    }
}

impl<'a> PartialEq for IfBlock<'a> {
    fn eq(&self, other: &Self) -> (equal: bool) {
        self.id == other.id
            && self.condtype == other.condtype
            && self.condition == other.condition
            && self.statements == other.statements
    }
}

impl<'a> PartialEqSpecImpl for IfBlock<'a> {
    open spec fn obeys_eq_spec() -> bool {
        true
    }

    open spec fn eq_spec(&self, other: &Self) -> bool {
        self@ == other@
    }
}

impl<'a> PartialEq for IfBlocks<'a> {
    fn eq(&self, other: &Self) -> (equal: bool) {
        let equal = self.ifblock_vector == other.ifblock_vector;
        proof {
            lemma_same_views(self.ifblock_vector@, other.ifblock_vector@, |x: IfBlock<'a>| x@);
        }
        equal
    }
}

impl<'a> PartialEqSpecImpl for IfBlocks<'a> {
    open spec fn obeys_eq_spec() -> bool {
        true
    }

    open spec fn eq_spec(&self, other: &Self) -> bool {
        self@ == other@
    }
}

impl<'a> PartialEq for VarInfo<'a> {
    fn eq(&self, other: &Self) -> (equal: bool) {
        match (self, other) {
            (VarInfo::BitArray(w, n), VarInfo::BitArray(v, m)) => *w == *v && *n == *m,
            (VarInfo::Packet(x), VarInfo::Packet(y)) => x == y,
            _ => false,
        }
    }
}

impl<'a> PartialEqSpecImpl for VarInfo<'a> {
    open spec fn obeys_eq_spec() -> bool {
        true
    }

    open spec fn eq_spec(&self, other: &Self) -> bool {
        self@ == other@
    }
}

impl<'a> PartialEq for VarType<'a> {
    fn eq(&self, other: &Self) -> (equal: bool) {
        self.var_info == other.var_info
            && self.type_qualifier == other.type_qualifier
    }
}

impl<'a> PartialEqSpecImpl for VarType<'a> {
    open spec fn obeys_eq_spec() -> bool {
        true
    }

    open spec fn eq_spec(&self, other: &Self) -> bool {
        self@ == other@
    }
}

impl<'a> PartialEq for VariableDecl<'a> {
    fn eq(&self, other: &Self) -> (equal: bool) {
        let values = self.initial_values == other.initial_values;
        proof {
            lemma_same_views(self.initial_values@, other.initial_values@, |x: Value| x@);
        }
        self.identifier == other.identifier && values && self.var_type == other.var_type
    }
}

impl<'a> PartialEqSpecImpl for VariableDecl<'a> {
    open spec fn obeys_eq_spec() -> bool {
        true
    }

    open spec fn eq_spec(&self, other: &Self) -> bool {
        self@ == other@
    }
}

impl<'a> PartialEq for VariableDecls<'a> {
    fn eq(&self, other: &Self) -> (equal: bool) {
        let equal = self.decl_vector == other.decl_vector;
        proof {
            lemma_same_views(self.decl_vector@, other.decl_vector@, |x: VariableDecl<'a>| x@);
        }
        equal
    }
}

impl<'a> PartialEqSpecImpl for VariableDecls<'a> {
    open spec fn obeys_eq_spec() -> bool {
        true
    }

    open spec fn eq_spec(&self, other: &Self) -> bool {
        self@ == other@
    }
}

impl<'a> PartialEq for Globals<'a> {
    fn eq(&self, other: &Self) -> (equal: bool) {
        let equal = self.global_vector == other.global_vector;
        proof {
            lemma_same_views(self.global_vector@, other.global_vector@, |x: VariableDecl<'a>| x@);
        }
        equal
    }
}

impl<'a> PartialEqSpecImpl for Globals<'a> {
    open spec fn obeys_eq_spec() -> bool {
        true
    }

    open spec fn eq_spec(&self, other: &Self) -> bool {
        self@ == other@
    }
}

impl<'a> PartialEq for PacketField<'a> {
    fn eq(&self, other: &Self) -> (equal: bool) {
        self.identifier == other.identifier
            && self.var_type == other.var_type
    }
}

impl<'a> PartialEqSpecImpl for PacketField<'a> {
    open spec fn obeys_eq_spec() -> bool {
        true
    }

    open spec fn eq_spec(&self, other: &Self) -> bool {
        self@ == other@
    }
}

impl<'a> PartialEq for PacketFields<'a> {
    fn eq(&self, other: &Self) -> (equal: bool) {
        let equal = self.field_vector == other.field_vector;
        proof {
            lemma_same_views(self.field_vector@, other.field_vector@, |x: PacketField<'a>| x@);
        }
        equal
    }
}

impl<'a> PartialEqSpecImpl for PacketFields<'a> {
    open spec fn obeys_eq_spec() -> bool {
        true
    }

    open spec fn eq_spec(&self, other: &Self) -> bool {
        self@ == other@
    }
}

impl<'a> PartialEq for Packet<'a> {
    fn eq(&self, other: &Self) -> (equal: bool) {
        self.packet_id == other.packet_id
            && self.packet_fields == other.packet_fields
    }
}

impl<'a> PartialEqSpecImpl for Packet<'a> {
    open spec fn obeys_eq_spec() -> bool {
        true
    }

    open spec fn eq_spec(&self, other: &Self) -> bool {
        self@ == other@
    }
}

impl<'a> PartialEq for Packets<'a> {
    fn eq(&self, other: &Self) -> (equal: bool) {
        let equal = self.packet_vector == other.packet_vector;
        proof {
            lemma_same_views(self.packet_vector@, other.packet_vector@, |x: Packet<'a>| x@);
        }
        equal
    }
}

impl<'a> PartialEqSpecImpl for Packets<'a> {
    open spec fn obeys_eq_spec() -> bool {
        true
    }

    open spec fn eq_spec(&self, other: &Self) -> bool {
        self@ == other@
    }
}

impl<'a> PartialEq for Snippet<'a> {
    fn eq(&self, other: &Self) -> (equal: bool) {
        self.snippet_id == other.snippet_id
            && self.device_id == other.device_id
            && self.variable_decls == other.variable_decls
            && self.ifblocks == other.ifblocks
    }
}

impl<'a> PartialEqSpecImpl for Snippet<'a> {
    open spec fn obeys_eq_spec() -> bool {
        true
    }

    open spec fn eq_spec(&self, other: &Self) -> bool {
        self@ == other@
    }
}

impl<'a> PartialEq for Snippets<'a> {
    fn eq(&self, other: &Self) -> (equal: bool) {
        let equal = self.snippet_vector == other.snippet_vector;
        proof {
            lemma_same_views(self.snippet_vector@, other.snippet_vector@, |x: Snippet<'a>| x@);
        }
        equal
    }
}

impl<'a> PartialEqSpecImpl for Snippets<'a> {
    open spec fn obeys_eq_spec() -> bool {
        true
    }

    open spec fn eq_spec(&self, other: &Self) -> bool {
        self@ == other@
    }
}

impl<'a> PartialEq for VariablePair<'a> {
    fn eq(&self, other: &Self) -> (equal: bool) {
        self.from_var == other.from_var
            && self.to_var == other.to_var
    }
}

impl<'a> PartialEqSpecImpl for VariablePair<'a> {
    open spec fn obeys_eq_spec() -> bool {
        true
    }

    open spec fn eq_spec(&self, other: &Self) -> bool {
        self@ == other@
    }
}

impl<'a> PartialEq for Connection<'a> {
    fn eq(&self, other: &Self) -> (equal: bool) {
        let pairs = self.variable_pairs == other.variable_pairs;
        proof {
            lemma_same_views(
                self.variable_pairs@,
                other.variable_pairs@,
                |x: VariablePair<'a>| x@,
            );
        }
        self.from_snippet == other.from_snippet && self.to_snippet == other.to_snippet && pairs
    }
}

impl<'a> PartialEqSpecImpl for Connection<'a> {
    open spec fn obeys_eq_spec() -> bool {
        true
    }

    open spec fn eq_spec(&self, other: &Self) -> bool {
        self@ == other@
    }
}

impl<'a> PartialEq for Connections<'a> {
    fn eq(&self, other: &Self) -> (equal: bool) {
        let equal = self.connection_vector == other.connection_vector;
        proof {
            lemma_same_views(
                self.connection_vector@,
                other.connection_vector@,
                |x: Connection<'a>| x@,
            );
        }
        equal
    }
}

impl<'a> PartialEqSpecImpl for Connections<'a> {
    open spec fn obeys_eq_spec() -> bool {
        true
    }

    open spec fn eq_spec(&self, other: &Self) -> bool {
        self@ == other@
    }
}

impl<'a> PartialEq for Prog<'a> {
    fn eq(&self, other: &Self) -> (equal: bool) {
        self.globals == other.globals
            && self.packets == other.packets
            && self.snippets == other.snippets
            && self.connections == other.connections
    }
}

impl<'a> PartialEqSpecImpl for Prog<'a> {
    open spec fn obeys_eq_spec() -> bool {
        true
    }

    open spec fn eq_spec(&self, other: &Self) -> bool {
        self@ == other@
    }
}

} // verus!
