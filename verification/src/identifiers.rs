//! The identifiers of a tree, listed in the order in which they are written.

use crate::grammar::{
    Condition, Connection, Connections, Expr, ExprRight, Globals, Identifier, IfBlock, IfBlocks,
    LValue, Operand, Packet, PacketField, PacketFields, Packets, Prog, Snippet, Snippets,
    Statement, Statements, Value, VarInfo, VarType, VariableDecl, VariableDecls, VariablePair,
};
use crate::in_turn::{in_turn, lemma_in_turn_add, lemma_in_turn_next};
use vstd::prelude::*;

verus! {

/// The identifiers of all `items`, item after item.
pub open spec fn gather<'a, T>(items: Seq<T>, of: spec_fn(T) -> Seq<Identifier<'a>>) -> Seq<
    Identifier<'a>,
>
    decreases items.len(),
{
    if items.len() == 0 {
        Seq::empty()
    } else {
        gather(items.drop_last(), of) + of(items.last())
    }
}

impl<'a> Operand<'a> {
    /// The identifiers in the operand, in the order in which they are
    /// written.
    pub open spec fn identifiers(self) -> Seq<Identifier<'a>>
        decreases self,
    {
        match self {
            Operand::LValue(lvalue) => lvalue.identifiers(),
            Operand::Value(_) => Seq::empty(),
        }
    }
}

impl<'a> LValue<'a> {
    /// The identifiers in the l-value, in the order in which they are
    /// written: the variable first, then what its index or field holds.
    pub open spec fn identifiers(self) -> Seq<Identifier<'a>>
        decreases self,
    {
        match self {
            LValue::Scalar(id) => seq![id],
            LValue::Array(id, index) => seq![id] + index.identifiers(),
            LValue::Field(id, field) => seq![id, field],
        }
    }

    /// The literal that ends the chain of indices of the l-value, if there
    /// is one: `3` in `a [ b [ 3 ]  ] `, none in `a [ b [ c ]  ] `.
    pub open spec fn literal_index(self) -> Option<Value>
        decreases self,
    {
        match self {
            LValue::Array(_, index) => match *index {
                Operand::LValue(inner) => inner.literal_index(),
                Operand::Value(value) => Some(value),
            },
            _ => None,
        }
    }
}

impl<'a> ExprRight<'a> {
    /// The identifiers in the right part of an expression.
    pub open spec fn identifiers(self) -> Seq<Identifier<'a>> {
        match self {
            ExprRight::BinOp(_, operand) => operand.identifiers(),
            ExprRight::Cond(first, second) => first.identifiers() + second.identifiers(),
            ExprRight::Empty() => Seq::empty(),
        }
    }
}

impl<'a> Expr<'a> {
    /// The identifiers in the expression, left operand first.
    pub open spec fn identifiers(self) -> Seq<Identifier<'a>> {
        self.op1.identifiers() + self.expr_right.identifiers()
    }
}

impl<'a> Statement<'a> {
    /// The identifiers in the statement, assigned l-value first.
    pub open spec fn identifiers(self) -> Seq<Identifier<'a>> {
        self.lvalue.identifiers() + self.expr.identifiers()
    }
}

impl<'a> Statements<'a> {
    /// The identifiers in the statements, statement after statement.
    pub open spec fn identifiers(self) -> Seq<Identifier<'a>> {
        gather(self.stmt_vector@, |s: Statement<'a>| s.identifiers())
    }
}

impl<'a> Condition<'a> {
    /// The identifiers in the guard.
    pub open spec fn identifiers(self) -> Seq<Identifier<'a>> {
        self.expr.identifiers()
    }
}

impl<'a> IfBlock<'a> {
    /// The identifiers in the block: those of its guard, then those of its
    /// statements.
    pub open spec fn identifiers(self) -> Seq<Identifier<'a>> {
        self.condition.identifiers() + self.statements.identifiers()
    }
}

impl<'a> IfBlocks<'a> {
    /// The identifiers in the blocks, block after block.
    pub open spec fn identifiers(self) -> Seq<Identifier<'a>> {
        gather(self.ifblock_vector@, |b: IfBlock<'a>| b.identifiers())
    }
}

impl<'a> VarInfo<'a> {
    /// The name of the packet type, if the variable holds a packet.
    pub open spec fn identifiers(self) -> Seq<Identifier<'a>> {
        match self {
            VarInfo::BitArray(_, _) => Seq::empty(),
            VarInfo::Packet(id) => seq![id],
        }
    }
}

impl<'a> VarType<'a> {
    /// The identifiers in the type.
    pub open spec fn identifiers(self) -> Seq<Identifier<'a>> {
        self.var_info.identifiers()
    }
}

impl<'a> VariableDecl<'a> {
    /// The identifiers in the declaration: the variable, then those of its
    /// type.
    pub open spec fn identifiers(self) -> Seq<Identifier<'a>> {
        seq![self.identifier] + self.var_type.identifiers()
    }
}

impl<'a> VariableDecls<'a> {
    /// The identifiers in the declarations, declaration after declaration.
    pub open spec fn identifiers(self) -> Seq<Identifier<'a>> {
        gather(self.decl_vector@, |d: VariableDecl<'a>| d.identifiers())
    }
}

impl<'a> Globals<'a> {
    /// The identifiers in the global declarations, declaration after
    /// declaration.
    pub open spec fn identifiers(self) -> Seq<Identifier<'a>> {
        gather(self.global_vector@, |d: VariableDecl<'a>| d.identifiers())
    }
}

impl<'a> PacketField<'a> {
    /// The identifiers in the field: its name, then those of its type.
    pub open spec fn identifiers(self) -> Seq<Identifier<'a>> {
        seq![self.identifier] + self.var_type.identifiers()
    }
}

impl<'a> PacketFields<'a> {
    /// The identifiers in the fields, field after field.
    pub open spec fn identifiers(self) -> Seq<Identifier<'a>> {
        gather(self.field_vector@, |f: PacketField<'a>| f.identifiers())
    }
}

impl<'a> Packet<'a> {
    /// The identifiers in the packet type: its name, then those of its
    /// fields.
    pub open spec fn identifiers(self) -> Seq<Identifier<'a>> {
        seq![self.packet_id] + self.packet_fields.identifiers()
    }
}

impl<'a> Packets<'a> {
    /// The identifiers in the packet types, type after type.
    pub open spec fn identifiers(self) -> Seq<Identifier<'a>> {
        gather(self.packet_vector@, |p: Packet<'a>| p.identifiers())
    }
}

impl<'a> Snippet<'a> {
    /// The identifiers in the snippet: its name, its device, then those of
    /// its declarations and of its blocks.
    pub open spec fn identifiers(self) -> Seq<Identifier<'a>> {
        seq![self.snippet_id, self.device_id] + self.variable_decls.identifiers()
            + self.ifblocks.identifiers()
    }
}

impl<'a> Snippets<'a> {
    /// The identifiers in the snippets, snippet after snippet.
    pub open spec fn identifiers(self) -> Seq<Identifier<'a>> {
        gather(self.snippet_vector@, |s: Snippet<'a>| s.identifiers())
    }
}

impl<'a> VariablePair<'a> {
    /// The two variables, source first.
    pub open spec fn identifiers(self) -> Seq<Identifier<'a>> {
        seq![self.from_var, self.to_var]
    }
}

impl<'a> Connection<'a> {
    /// The identifiers in the connection: the two snippets, source first,
    /// then pair after pair.
    pub open spec fn identifiers(self) -> Seq<Identifier<'a>> {
        seq![self.from_snippet, self.to_snippet] + gather(
            self.variable_pairs@,
            |p: VariablePair<'a>| p.identifiers(),
        )
    }
}

impl<'a> Connections<'a> {
    /// The identifiers in the connections, connection after connection.
    pub open spec fn identifiers(self) -> Seq<Identifier<'a>> {
        gather(self.connection_vector@, |c: Connection<'a>| c.identifiers())
    }
}

impl<'a> Prog<'a> {
    /// Every identifier in the program, once for each place where it is
    /// written, in declaration order: globals, packets, snippets,
    /// connections.
    pub open spec fn identifiers(self) -> Seq<Identifier<'a>> {
        self.globals.identifiers() + self.packets.identifiers() + self.snippets.identifiers()
            + self.connections.identifiers()
    }
}

/// The identifiers of the first `n + 1` items are those of the first `n`,
/// then those of item `n`.
pub proof fn lemma_gather_next<'a, T>(
    items: Seq<T>,
    of: spec_fn(T) -> Seq<Identifier<'a>>,
    n: int,
)
    requires
        0 <= n < items.len(),
    ensures
        gather(items.take(n + 1), of) == gather(items.take(n), of) + of(items[n]),
{
    assert(items.take(n + 1).drop_last() =~= items.take(n));
}

/// One more item is visited. A turn of `step` through the first `n` items
/// and a step for item `n` are a turn through the first `n + 1`. And where
/// `whole` holds, and `each` has taken its turn through the identifiers of
/// the first `n` items and then through those of item `n`, it has taken its
/// turn through the identifiers of the first `n + 1`.
pub proof fn lemma_next_item<'a, T, Acc>(
    items: Seq<T>,
    of: spec_fn(T) -> Seq<Identifier<'a>>,
    step: spec_fn(T, Acc, Acc) -> bool,
    each: spec_fn(Identifier<'a>, Acc, Acc) -> bool,
    n: int,
    start: Acc,
    before: Acc,
    after: Acc,
    whole: bool,
)
    requires
        0 <= n < items.len(),
        in_turn(items.take(n), step, start, before),
        step(items[n], before, after),
        whole ==> in_turn(gather(items.take(n), of), each, start, before),
        whole ==> in_turn(of(items[n]), each, before, after),
    ensures
        in_turn(items.take(n + 1), step, start, after),
        whole ==> in_turn(gather(items.take(n + 1), of), each, start, after),
{
    lemma_gather_next(items, of, n);
    lemma_in_turn_next(items, step, n, start, before, after);
    if whole {
        lemma_in_turn_add(gather(items.take(n), of), of(items[n]), each, start, before, after);
    }
}

} // verus!
