//! One traversal of the syntax tree, for every pass to share.
//!
//! [`TreeFold`] has a visit for each kind of node. Each visit takes the node
//! and the pass's collector, and by default does nothing but visit the node's
//! children, in declaration order. A pass picks its collector type and
//! overrides the visits it cares about.

use crate::grammar::{
    BinOpType, Condition, Connection, Connections, Expr, ExprRight, Globals, Identifier, IfBlock,
    IfBlocks, LValue, Operand, Packet, PacketField, PacketFields, Packets, Prog, Snippet,
    Snippets, Statement, Statements, TypeQualifier, Value, VarInfo, VarType, VariableDecl,
    VariableDecls, VariablePair,
};
use crate::identifiers::{gather, lemma_next_item};
use crate::in_turn::{in_turn, lemma_in_turn_add, lemma_in_turn_next, lemma_in_turn_one};
use vstd::prelude::*;

verus! {

/// A compiler pass over the syntax tree, with a collector of type `Acc`.
///
/// There is a visit for each kind of node. It takes the node and the
/// collector, which it may read and change. A pass overrides the visits of
/// the nodes it cares about and inherits the others, so that no node is
/// skipped.
///
/// The default of a visit hands the collector to the visits of the node's
/// children, one after the other in declaration order, and does nothing
/// else. Its `default_ensures` says so: the collector goes through one borrow
/// for each child, each borrow starts with what the one before it ended
/// with, and what a child's visit does with its borrow is whatever the pass
/// makes of that visit.
///
/// The defaults do not call each other in a circle. The index of an array
/// l-value, which may hold an array l-value again, is walked by
/// [`TreeFold::visit_lvalue`] itself, down to its identifiers and its
/// literal.
pub trait TreeFold<Acc> {
    /// Whether the pass acts at identifiers only: whether every visit but
    /// [`TreeFold::visit_identifier`] does what its default does.
    ///
    /// Of such a pass every visit guarantees that it applies
    /// `visit_identifier` to each identifier of its node, once for each place
    /// where one is written, in declaration order, and changes the collector
    /// in no other way. This is the `ensures` of the visits. A pass that
    /// overrides another visit so that this no longer holds says `false`
    /// here, and the guarantee is not made of it.
    open spec fn identifiers_only() -> bool {
        true
    }

    /// Visits a program: its globals, packets, snippets and connections.
    fn visit_prog(tree: &Prog, collector: &mut Acc)
        ensures
            Self::identifiers_only() ==> in_turn(
                tree.identifiers(),
                |id: Identifier, a: Acc, b: Acc|
                    exists|m: &mut Acc|
                        *m == a && *final(m) == b
                            && call_ensures(Self::visit_identifier, (&id, m), ()),
                *old(collector),
                *final(collector),
            ),
        default_ensures
            exists|m1: &mut Acc, m2: &mut Acc, m3: &mut Acc, m4: &mut Acc|
                {
                    &&& *m1 == *old(collector)
                    &&& call_ensures(Self::visit_globals, (&tree.globals, m1), ())
                    &&& *m2 == *final(m1)
                    &&& call_ensures(Self::visit_packets, (&tree.packets, m2), ())
                    &&& *m3 == *final(m2)
                    &&& call_ensures(Self::visit_snippets, (&tree.snippets, m3), ())
                    &&& *m4 == *final(m3)
                    &&& call_ensures(Self::visit_connections, (&tree.connections, m4), ())
                    &&& *final(collector) == *final(m4)
                },
    {
        let ghost each = |id: Identifier, a: Acc, b: Acc|
            exists|m: &mut Acc|
                *m == a && *final(m) == b
                    && call_ensures(Self::visit_identifier, (&id, m), ());
        Self::visit_globals(&tree.globals, collector);
        let ghost s1 = *collector;
        Self::visit_packets(&tree.packets, collector);
        let ghost s2 = *collector;
        Self::visit_snippets(&tree.snippets, collector);
        let ghost s3 = *collector;
        Self::visit_connections(&tree.connections, collector);
        proof {
            if Self::identifiers_only() {
                let a = tree.globals.identifiers();
                let b = tree.packets.identifiers();
                let c = tree.snippets.identifiers();
                let d = tree.connections.identifiers();
                lemma_in_turn_add(a, b, each, *old(collector), s1, s2);
                lemma_in_turn_add(a + b, c, each, *old(collector), s2, s3);
                lemma_in_turn_add(a + b + c, d, each, *old(collector), s3, *collector);
            }
        }
    }

    /// Visits the global declarations, one after the other.
    #[verifier::loop_isolation(false)]
    fn visit_globals(tree: &Globals, collector: &mut Acc)
        ensures
            Self::identifiers_only() ==> in_turn(
                tree.identifiers(),
                |id: Identifier, a: Acc, b: Acc|
                    exists|m: &mut Acc|
                        *m == a && *final(m) == b
                            && call_ensures(Self::visit_identifier, (&id, m), ()),
                *old(collector),
                *final(collector),
            ),
        default_ensures
            in_turn(
                tree.global_vector@,
                |x: VariableDecl, a: Acc, b: Acc|
                    exists|m: &mut Acc|
                        *m == a && *final(m) == b
                            && call_ensures(Self::visit_variable_decl, (&x, m), ()),
                *old(collector),
                *final(collector),
            ),
    {
        let ghost each = |id: Identifier, a: Acc, b: Acc|
            exists|m: &mut Acc|
                *m == a && *final(m) == b
                    && call_ensures(Self::visit_identifier, (&id, m), ());
        let ghost step = |x: VariableDecl, a: Acc, b: Acc|
            exists|m: &mut Acc|
                *m == a && *final(m) == b
                    && call_ensures(Self::visit_variable_decl, (&x, m), ());
        let ghost of = |x: VariableDecl| x.identifiers();
        let mut i: usize = 0;
        while i < tree.global_vector.len()
            invariant
                i <= tree.global_vector.len(),
                in_turn(tree.global_vector@.take(i as int), step, *old(collector), *collector),
                Self::identifiers_only() ==> in_turn(
                    gather(tree.global_vector@.take(i as int), of),
                    each,
                    *old(collector),
                    *collector,
                ),
            decreases tree.global_vector.len() - i,
        {
            let ghost before = *collector;
            Self::visit_variable_decl(&tree.global_vector[i], collector);
            proof {
                lemma_next_item(
                    tree.global_vector@,
                    of,
                    step,
                    each,
                    i as int,
                    *old(collector),
                    before,
                    *collector,
                    Self::identifiers_only(),
                );
            }
            i = i + 1;
        }
        proof {
            assert(tree.global_vector@.take(i as int) =~= tree.global_vector@);
        }
    }

    /// Visits the packet types, one after the other.
    #[verifier::loop_isolation(false)]
    fn visit_packets(tree: &Packets, collector: &mut Acc)
        ensures
            Self::identifiers_only() ==> in_turn(
                tree.identifiers(),
                |id: Identifier, a: Acc, b: Acc|
                    exists|m: &mut Acc|
                        *m == a && *final(m) == b
                            && call_ensures(Self::visit_identifier, (&id, m), ()),
                *old(collector),
                *final(collector),
            ),
        default_ensures
            in_turn(
                tree.packet_vector@,
                |x: Packet, a: Acc, b: Acc|
                    exists|m: &mut Acc|
                        *m == a && *final(m) == b
                            && call_ensures(Self::visit_packet, (&x, m), ()),
                *old(collector),
                *final(collector),
            ),
    {
        let ghost each = |id: Identifier, a: Acc, b: Acc|
            exists|m: &mut Acc|
                *m == a && *final(m) == b
                    && call_ensures(Self::visit_identifier, (&id, m), ());
        let ghost step = |x: Packet, a: Acc, b: Acc|
            exists|m: &mut Acc|
                *m == a && *final(m) == b
                    && call_ensures(Self::visit_packet, (&x, m), ());
        let ghost of = |x: Packet| x.identifiers();
        let mut i: usize = 0;
        while i < tree.packet_vector.len()
            invariant
                i <= tree.packet_vector.len(),
                in_turn(tree.packet_vector@.take(i as int), step, *old(collector), *collector),
                Self::identifiers_only() ==> in_turn(
                    gather(tree.packet_vector@.take(i as int), of),
                    each,
                    *old(collector),
                    *collector,
                ),
            decreases tree.packet_vector.len() - i,
        {
            let ghost before = *collector;
            Self::visit_packet(&tree.packet_vector[i], collector);
            proof {
                lemma_next_item(
                    tree.packet_vector@,
                    of,
                    step,
                    each,
                    i as int,
                    *old(collector),
                    before,
                    *collector,
                    Self::identifiers_only(),
                );
            }
            i = i + 1;
        }
        proof {
            assert(tree.packet_vector@.take(i as int) =~= tree.packet_vector@);
        }
    }

    /// Visits a packet type: its name, then its fields.
    fn visit_packet(tree: &Packet, collector: &mut Acc)
        ensures
            Self::identifiers_only() ==> in_turn(
                tree.identifiers(),
                |id: Identifier, a: Acc, b: Acc|
                    exists|m: &mut Acc|
                        *m == a && *final(m) == b
                            && call_ensures(Self::visit_identifier, (&id, m), ()),
                *old(collector),
                *final(collector),
            ),
        default_ensures
            exists|m1: &mut Acc, m2: &mut Acc|
                {
                    &&& *m1 == *old(collector)
                    &&& call_ensures(Self::visit_identifier, (&tree.packet_id, m1), ())
                    &&& *m2 == *final(m1)
                    &&& call_ensures(Self::visit_packet_fields, (&tree.packet_fields, m2), ())
                    &&& *final(collector) == *final(m2)
                },
    {
        let ghost each = |id: Identifier, a: Acc, b: Acc|
            exists|m: &mut Acc|
                *m == a && *final(m) == b
                    && call_ensures(Self::visit_identifier, (&id, m), ());
        Self::visit_identifier(&tree.packet_id, collector);
        let ghost s1 = *collector;
        Self::visit_packet_fields(&tree.packet_fields, collector);
        proof {
            if Self::identifiers_only() {
                lemma_in_turn_one(tree.packet_id, each, *old(collector), s1);
                lemma_in_turn_add(
                    seq![tree.packet_id],
                    tree.packet_fields.identifiers(),
                    each,
                    *old(collector),
                    s1,
                    *collector,
                );
            }
        }
    }

    /// Visits the fields of a packet, one after the other.
    #[verifier::loop_isolation(false)]
    fn visit_packet_fields(tree: &PacketFields, collector: &mut Acc)
        ensures
            Self::identifiers_only() ==> in_turn(
                tree.identifiers(),
                |id: Identifier, a: Acc, b: Acc|
                    exists|m: &mut Acc|
                        *m == a && *final(m) == b
                            && call_ensures(Self::visit_identifier, (&id, m), ()),
                *old(collector),
                *final(collector),
            ),
        default_ensures
            in_turn(
                tree.field_vector@,
                |x: PacketField, a: Acc, b: Acc|
                    exists|m: &mut Acc|
                        *m == a && *final(m) == b
                            && call_ensures(Self::visit_packet_field, (&x, m), ()),
                *old(collector),
                *final(collector),
            ),
    {
        let ghost each = |id: Identifier, a: Acc, b: Acc|
            exists|m: &mut Acc|
                *m == a && *final(m) == b
                    && call_ensures(Self::visit_identifier, (&id, m), ());
        let ghost step = |x: PacketField, a: Acc, b: Acc|
            exists|m: &mut Acc|
                *m == a && *final(m) == b
                    && call_ensures(Self::visit_packet_field, (&x, m), ());
        let ghost of = |x: PacketField| x.identifiers();
        let mut i: usize = 0;
        while i < tree.field_vector.len()
            invariant
                i <= tree.field_vector.len(),
                in_turn(tree.field_vector@.take(i as int), step, *old(collector), *collector),
                Self::identifiers_only() ==> in_turn(
                    gather(tree.field_vector@.take(i as int), of),
                    each,
                    *old(collector),
                    *collector,
                ),
            decreases tree.field_vector.len() - i,
        {
            let ghost before = *collector;
            Self::visit_packet_field(&tree.field_vector[i], collector);
            proof {
                lemma_next_item(
                    tree.field_vector@,
                    of,
                    step,
                    each,
                    i as int,
                    *old(collector),
                    before,
                    *collector,
                    Self::identifiers_only(),
                );
            }
            i = i + 1;
        }
        proof {
            assert(tree.field_vector@.take(i as int) =~= tree.field_vector@);
        }
    }

    /// Visits a field of a packet: its name, then its type.
    fn visit_packet_field(tree: &PacketField, collector: &mut Acc)
        ensures
            Self::identifiers_only() ==> in_turn(
                tree.identifiers(),
                |id: Identifier, a: Acc, b: Acc|
                    exists|m: &mut Acc|
                        *m == a && *final(m) == b
                            && call_ensures(Self::visit_identifier, (&id, m), ()),
                *old(collector),
                *final(collector),
            ),
        default_ensures
            exists|m1: &mut Acc, m2: &mut Acc|
                {
                    &&& *m1 == *old(collector)
                    &&& call_ensures(Self::visit_identifier, (&tree.identifier, m1), ())
                    &&& *m2 == *final(m1)
                    &&& call_ensures(Self::visit_var_type, (&tree.var_type, m2), ())
                    &&& *final(collector) == *final(m2)
                },
    {
        let ghost each = |id: Identifier, a: Acc, b: Acc|
            exists|m: &mut Acc|
                *m == a && *final(m) == b
                    && call_ensures(Self::visit_identifier, (&id, m), ());
        Self::visit_identifier(&tree.identifier, collector);
        let ghost s1 = *collector;
        Self::visit_var_type(&tree.var_type, collector);
        proof {
            if Self::identifiers_only() {
                lemma_in_turn_one(tree.identifier, each, *old(collector), s1);
                lemma_in_turn_add(
                    seq![tree.identifier],
                    tree.var_type.identifiers(),
                    each,
                    *old(collector),
                    s1,
                    *collector,
                );
            }
        }
    }

    /// Visits the snippets, one after the other.
    #[verifier::loop_isolation(false)]
    fn visit_snippets(tree: &Snippets, collector: &mut Acc)
        ensures
            Self::identifiers_only() ==> in_turn(
                tree.identifiers(),
                |id: Identifier, a: Acc, b: Acc|
                    exists|m: &mut Acc|
                        *m == a && *final(m) == b
                            && call_ensures(Self::visit_identifier, (&id, m), ()),
                *old(collector),
                *final(collector),
            ),
        default_ensures
            in_turn(
                tree.snippet_vector@,
                |x: Snippet, a: Acc, b: Acc|
                    exists|m: &mut Acc|
                        *m == a && *final(m) == b
                            && call_ensures(Self::visit_snippet, (&x, m), ()),
                *old(collector),
                *final(collector),
            ),
    {
        let ghost each = |id: Identifier, a: Acc, b: Acc|
            exists|m: &mut Acc|
                *m == a && *final(m) == b
                    && call_ensures(Self::visit_identifier, (&id, m), ());
        let ghost step = |x: Snippet, a: Acc, b: Acc|
            exists|m: &mut Acc|
                *m == a && *final(m) == b
                    && call_ensures(Self::visit_snippet, (&x, m), ());
        let ghost of = |x: Snippet| x.identifiers();
        let mut i: usize = 0;
        while i < tree.snippet_vector.len()
            invariant
                i <= tree.snippet_vector.len(),
                in_turn(tree.snippet_vector@.take(i as int), step, *old(collector), *collector),
                Self::identifiers_only() ==> in_turn(
                    gather(tree.snippet_vector@.take(i as int), of),
                    each,
                    *old(collector),
                    *collector,
                ),
            decreases tree.snippet_vector.len() - i,
        {
            let ghost before = *collector;
            Self::visit_snippet(&tree.snippet_vector[i], collector);
            proof {
                lemma_next_item(
                    tree.snippet_vector@,
                    of,
                    step,
                    each,
                    i as int,
                    *old(collector),
                    before,
                    *collector,
                    Self::identifiers_only(),
                );
            }
            i = i + 1;
        }
        proof {
            assert(tree.snippet_vector@.take(i as int) =~= tree.snippet_vector@);
        }
    }

    /// Visits a snippet: its name, its device, its declarations, then its
    /// blocks.
    fn visit_snippet(tree: &Snippet, collector: &mut Acc)
        ensures
            Self::identifiers_only() ==> in_turn(
                tree.identifiers(),
                |id: Identifier, a: Acc, b: Acc|
                    exists|m: &mut Acc|
                        *m == a && *final(m) == b
                            && call_ensures(Self::visit_identifier, (&id, m), ()),
                *old(collector),
                *final(collector),
            ),
        default_ensures
            exists|m1: &mut Acc, m2: &mut Acc, m3: &mut Acc, m4: &mut Acc|
                {
                    &&& *m1 == *old(collector)
                    &&& call_ensures(Self::visit_identifier, (&tree.snippet_id, m1), ())
                    &&& *m2 == *final(m1)
                    &&& call_ensures(Self::visit_identifier, (&tree.device_id, m2), ())
                    &&& *m3 == *final(m2)
                    &&& call_ensures(Self::visit_variable_decls, (&tree.variable_decls, m3), ())
                    &&& *m4 == *final(m3)
                    &&& call_ensures(Self::visit_ifblocks, (&tree.ifblocks, m4), ())
                    &&& *final(collector) == *final(m4)
                },
    {
        let ghost each = |id: Identifier, a: Acc, b: Acc|
            exists|m: &mut Acc|
                *m == a && *final(m) == b
                    && call_ensures(Self::visit_identifier, (&id, m), ());
        Self::visit_identifier(&tree.snippet_id, collector);
        let ghost s1 = *collector;
        Self::visit_identifier(&tree.device_id, collector);
        let ghost s2 = *collector;
        Self::visit_variable_decls(&tree.variable_decls, collector);
        let ghost s3 = *collector;
        Self::visit_ifblocks(&tree.ifblocks, collector);
        proof {
            if Self::identifiers_only() {
                let names = seq![tree.snippet_id, tree.device_id];
                let decls = tree.variable_decls.identifiers();
                lemma_in_turn_one(tree.snippet_id, each, *old(collector), s1);
                lemma_in_turn_one(tree.device_id, each, s1, s2);
                lemma_in_turn_add(
                    seq![tree.snippet_id],
                    seq![tree.device_id],
                    each,
                    *old(collector),
                    s1,
                    s2,
                );
                assert(seq![tree.snippet_id] + seq![tree.device_id] =~= names);
                lemma_in_turn_add(names, decls, each, *old(collector), s2, s3);
                lemma_in_turn_add(
                    names + decls,
                    tree.ifblocks.identifiers(),
                    each,
                    *old(collector),
                    s3,
                    *collector,
                );
            }
        }
    }

    /// Visits the blocks of a snippet, one after the other.
    #[verifier::loop_isolation(false)]
    fn visit_ifblocks(tree: &IfBlocks, collector: &mut Acc)
        ensures
            Self::identifiers_only() ==> in_turn(
                tree.identifiers(),
                |id: Identifier, a: Acc, b: Acc|
                    exists|m: &mut Acc|
                        *m == a && *final(m) == b
                            && call_ensures(Self::visit_identifier, (&id, m), ()),
                *old(collector),
                *final(collector),
            ),
        default_ensures
            in_turn(
                tree.ifblock_vector@,
                |x: IfBlock, a: Acc, b: Acc|
                    exists|m: &mut Acc|
                        *m == a && *final(m) == b
                            && call_ensures(Self::visit_ifblock, (&x, m), ()),
                *old(collector),
                *final(collector),
            ),
    {
        let ghost each = |id: Identifier, a: Acc, b: Acc|
            exists|m: &mut Acc|
                *m == a && *final(m) == b
                    && call_ensures(Self::visit_identifier, (&id, m), ());
        let ghost step = |x: IfBlock, a: Acc, b: Acc|
            exists|m: &mut Acc|
                *m == a && *final(m) == b
                    && call_ensures(Self::visit_ifblock, (&x, m), ());
        let ghost of = |x: IfBlock| x.identifiers();
        let mut i: usize = 0;
        while i < tree.ifblock_vector.len()
            invariant
                i <= tree.ifblock_vector.len(),
                in_turn(tree.ifblock_vector@.take(i as int), step, *old(collector), *collector),
                Self::identifiers_only() ==> in_turn(
                    gather(tree.ifblock_vector@.take(i as int), of),
                    each,
                    *old(collector),
                    *collector,
                ),
            decreases tree.ifblock_vector.len() - i,
        {
            let ghost before = *collector;
            Self::visit_ifblock(&tree.ifblock_vector[i], collector);
            proof {
                lemma_next_item(
                    tree.ifblock_vector@,
                    of,
                    step,
                    each,
                    i as int,
                    *old(collector),
                    before,
                    *collector,
                    Self::identifiers_only(),
                );
            }
            i = i + 1;
        }
        proof {
            assert(tree.ifblock_vector@.take(i as int) =~= tree.ifblock_vector@);
        }
    }

    /// Visits a block: its guard, then its statements.
    fn visit_ifblock(tree: &IfBlock, collector: &mut Acc)
        ensures
            Self::identifiers_only() ==> in_turn(
                tree.identifiers(),
                |id: Identifier, a: Acc, b: Acc|
                    exists|m: &mut Acc|
                        *m == a && *final(m) == b
                            && call_ensures(Self::visit_identifier, (&id, m), ()),
                *old(collector),
                *final(collector),
            ),
        default_ensures
            exists|m1: &mut Acc, m2: &mut Acc|
                {
                    &&& *m1 == *old(collector)
                    &&& call_ensures(Self::visit_condition, (&tree.condition, m1), ())
                    &&& *m2 == *final(m1)
                    &&& call_ensures(Self::visit_statements, (&tree.statements, m2), ())
                    &&& *final(collector) == *final(m2)
                },
    {
        let ghost each = |id: Identifier, a: Acc, b: Acc|
            exists|m: &mut Acc|
                *m == a && *final(m) == b
                    && call_ensures(Self::visit_identifier, (&id, m), ());
        Self::visit_condition(&tree.condition, collector);
        let ghost s1 = *collector;
        Self::visit_statements(&tree.statements, collector);
        proof {
            if Self::identifiers_only() {
                lemma_in_turn_add(
                    tree.condition.identifiers(),
                    tree.statements.identifiers(),
                    each,
                    *old(collector),
                    s1,
                    *collector,
                );
            }
        }
    }

    /// Visits a guard: its expression.
    fn visit_condition(tree: &Condition, collector: &mut Acc)
        ensures
            Self::identifiers_only() ==> in_turn(
                tree.identifiers(),
                |id: Identifier, a: Acc, b: Acc|
                    exists|m: &mut Acc|
                        *m == a && *final(m) == b
                            && call_ensures(Self::visit_identifier, (&id, m), ()),
                *old(collector),
                *final(collector),
            ),
        default_ensures
            exists|m1: &mut Acc|
                {
                    &&& *m1 == *old(collector)
                    &&& call_ensures(Self::visit_expr, (&tree.expr, m1), ())
                    &&& *final(collector) == *final(m1)
                },
    {
        Self::visit_expr(&tree.expr, collector);
    }

    /// Visits the connections, one after the other.
    #[verifier::loop_isolation(false)]
    fn visit_connections(tree: &Connections, collector: &mut Acc)
        ensures
            Self::identifiers_only() ==> in_turn(
                tree.identifiers(),
                |id: Identifier, a: Acc, b: Acc|
                    exists|m: &mut Acc|
                        *m == a && *final(m) == b
                            && call_ensures(Self::visit_identifier, (&id, m), ()),
                *old(collector),
                *final(collector),
            ),
        default_ensures
            in_turn(
                tree.connection_vector@,
                |x: Connection, a: Acc, b: Acc|
                    exists|m: &mut Acc|
                        *m == a && *final(m) == b
                            && call_ensures(Self::visit_connection, (&x, m), ()),
                *old(collector),
                *final(collector),
            ),
    {
        let ghost each = |id: Identifier, a: Acc, b: Acc|
            exists|m: &mut Acc|
                *m == a && *final(m) == b
                    && call_ensures(Self::visit_identifier, (&id, m), ());
        let ghost step = |x: Connection, a: Acc, b: Acc|
            exists|m: &mut Acc|
                *m == a && *final(m) == b
                    && call_ensures(Self::visit_connection, (&x, m), ());
        let ghost of = |x: Connection| x.identifiers();
        let mut i: usize = 0;
        while i < tree.connection_vector.len()
            invariant
                i <= tree.connection_vector.len(),
                in_turn(tree.connection_vector@.take(i as int), step, *old(collector), *collector),
                Self::identifiers_only() ==> in_turn(
                    gather(tree.connection_vector@.take(i as int), of),
                    each,
                    *old(collector),
                    *collector,
                ),
            decreases tree.connection_vector.len() - i,
        {
            let ghost before = *collector;
            Self::visit_connection(&tree.connection_vector[i], collector);
            proof {
                lemma_next_item(
                    tree.connection_vector@,
                    of,
                    step,
                    each,
                    i as int,
                    *old(collector),
                    before,
                    *collector,
                    Self::identifiers_only(),
                );
            }
            i = i + 1;
        }
        proof {
            assert(tree.connection_vector@.take(i as int) =~= tree.connection_vector@);
        }
    }

    /// Visits a connection: the source snippet, the destination snippet,
    /// then the pairs of variables, one after the other.
    #[verifier::loop_isolation(false)]
    fn visit_connection(tree: &Connection, collector: &mut Acc)
        ensures
            Self::identifiers_only() ==> in_turn(
                tree.identifiers(),
                |id: Identifier, a: Acc, b: Acc|
                    exists|m: &mut Acc|
                        *m == a && *final(m) == b
                            && call_ensures(Self::visit_identifier, (&id, m), ()),
                *old(collector),
                *final(collector),
            ),
        default_ensures
            exists|m1: &mut Acc, m2: &mut Acc|
                {
                    &&& *m1 == *old(collector)
                    &&& call_ensures(Self::visit_identifier, (&tree.from_snippet, m1), ())
                    &&& *m2 == *final(m1)
                    &&& call_ensures(Self::visit_identifier, (&tree.to_snippet, m2), ())
                    &&& in_turn(
                        tree.variable_pairs@,
                        |x: VariablePair, a: Acc, b: Acc|
                            exists|m: &mut Acc|
                                *m == a && *final(m) == b
                                    && call_ensures(Self::visit_variable_pair, (&x, m), ()),
                        *final(m2),
                        *final(collector),
                    )
                },
    {
        let ghost each = |id: Identifier, a: Acc, b: Acc|
            exists|m: &mut Acc|
                *m == a && *final(m) == b
                    && call_ensures(Self::visit_identifier, (&id, m), ());
        let ghost step = |x: VariablePair, a: Acc, b: Acc|
            exists|m: &mut Acc|
                *m == a && *final(m) == b
                    && call_ensures(Self::visit_variable_pair, (&x, m), ());
        let ghost of = |x: VariablePair| x.identifiers();
        let ghost names = seq![tree.from_snippet, tree.to_snippet];
        Self::visit_identifier(&tree.from_snippet, collector);
        let ghost s1 = *collector;
        Self::visit_identifier(&tree.to_snippet, collector);
        let ghost s2 = *collector;
        proof {
            lemma_in_turn_one(tree.from_snippet, each, *old(collector), s1);
            lemma_in_turn_one(tree.to_snippet, each, s1, s2);
            lemma_in_turn_add(
                seq![tree.from_snippet],
                seq![tree.to_snippet],
                each,
                *old(collector),
                s1,
                s2,
            );
            assert(seq![tree.from_snippet] + seq![tree.to_snippet] =~= names);
        }
        let mut i: usize = 0;
        while i < tree.variable_pairs.len()
            invariant
                i <= tree.variable_pairs.len(),
                in_turn(tree.variable_pairs@.take(i as int), step, s2, *collector),
                Self::identifiers_only() ==> in_turn(
                    gather(tree.variable_pairs@.take(i as int), of),
                    each,
                    s2,
                    *collector,
                ),
            decreases tree.variable_pairs.len() - i,
        {
            let ghost before = *collector;
            Self::visit_variable_pair(&tree.variable_pairs[i], collector);
            proof {
                lemma_next_item(
                    tree.variable_pairs@,
                    of,
                    step,
                    each,
                    i as int,
                    s2,
                    before,
                    *collector,
                    Self::identifiers_only(),
                );
            }
            i = i + 1;
        }
        proof {
            assert(tree.variable_pairs@.take(i as int) =~= tree.variable_pairs@);
            if Self::identifiers_only() {
                lemma_in_turn_add(
                    names,
                    gather(tree.variable_pairs@, of),
                    each,
                    *old(collector),
                    s2,
                    *collector,
                );
            }
        }
    }

    /// Visits a pair of variables: the source, then the destination.
    fn visit_variable_pair(tree: &VariablePair, collector: &mut Acc)
        ensures
            Self::identifiers_only() ==> in_turn(
                tree.identifiers(),
                |id: Identifier, a: Acc, b: Acc|
                    exists|m: &mut Acc|
                        *m == a && *final(m) == b
                            && call_ensures(Self::visit_identifier, (&id, m), ()),
                *old(collector),
                *final(collector),
            ),
        default_ensures
            exists|m1: &mut Acc, m2: &mut Acc|
                {
                    &&& *m1 == *old(collector)
                    &&& call_ensures(Self::visit_identifier, (&tree.from_var, m1), ())
                    &&& *m2 == *final(m1)
                    &&& call_ensures(Self::visit_identifier, (&tree.to_var, m2), ())
                    &&& *final(collector) == *final(m2)
                },
    {
        let ghost each = |id: Identifier, a: Acc, b: Acc|
            exists|m: &mut Acc|
                *m == a && *final(m) == b
                    && call_ensures(Self::visit_identifier, (&id, m), ());
        Self::visit_identifier(&tree.from_var, collector);
        let ghost s1 = *collector;
        Self::visit_identifier(&tree.to_var, collector);
        proof {
            lemma_in_turn_one(tree.from_var, each, *old(collector), s1);
            lemma_in_turn_one(tree.to_var, each, s1, *collector);
            lemma_in_turn_add(
                seq![tree.from_var],
                seq![tree.to_var],
                each,
                *old(collector),
                s1,
                *collector,
            );
            assert(seq![tree.from_var] + seq![tree.to_var] =~= tree.identifiers());
        }
    }

    /// Visits the declarations of a snippet, one after the other.
    #[verifier::loop_isolation(false)]
    fn visit_variable_decls(tree: &VariableDecls, collector: &mut Acc)
        ensures
            Self::identifiers_only() ==> in_turn(
                tree.identifiers(),
                |id: Identifier, a: Acc, b: Acc|
                    exists|m: &mut Acc|
                        *m == a && *final(m) == b
                            && call_ensures(Self::visit_identifier, (&id, m), ()),
                *old(collector),
                *final(collector),
            ),
        default_ensures
            in_turn(
                tree.decl_vector@,
                |x: VariableDecl, a: Acc, b: Acc|
                    exists|m: &mut Acc|
                        *m == a && *final(m) == b
                            && call_ensures(Self::visit_variable_decl, (&x, m), ()),
                *old(collector),
                *final(collector),
            ),
    {
        let ghost each = |id: Identifier, a: Acc, b: Acc|
            exists|m: &mut Acc|
                *m == a && *final(m) == b
                    && call_ensures(Self::visit_identifier, (&id, m), ());
        let ghost step = |x: VariableDecl, a: Acc, b: Acc|
            exists|m: &mut Acc|
                *m == a && *final(m) == b
                    && call_ensures(Self::visit_variable_decl, (&x, m), ());
        let ghost of = |x: VariableDecl| x.identifiers();
        let mut i: usize = 0;
        while i < tree.decl_vector.len()
            invariant
                i <= tree.decl_vector.len(),
                in_turn(tree.decl_vector@.take(i as int), step, *old(collector), *collector),
                Self::identifiers_only() ==> in_turn(
                    gather(tree.decl_vector@.take(i as int), of),
                    each,
                    *old(collector),
                    *collector,
                ),
            decreases tree.decl_vector.len() - i,
        {
            let ghost before = *collector;
            Self::visit_variable_decl(&tree.decl_vector[i], collector);
            proof {
                lemma_next_item(
                    tree.decl_vector@,
                    of,
                    step,
                    each,
                    i as int,
                    *old(collector),
                    before,
                    *collector,
                    Self::identifiers_only(),
                );
            }
            i = i + 1;
        }
        proof {
            assert(tree.decl_vector@.take(i as int) =~= tree.decl_vector@);
        }
    }

    /// Visits a declaration: the variable, its initial values one after the
    /// other, then its type.
    #[verifier::loop_isolation(false)]
    fn visit_variable_decl(tree: &VariableDecl, collector: &mut Acc)
        ensures
            Self::identifiers_only() ==> in_turn(
                tree.identifiers(),
                |id: Identifier, a: Acc, b: Acc|
                    exists|m: &mut Acc|
                        *m == a && *final(m) == b
                            && call_ensures(Self::visit_identifier, (&id, m), ()),
                *old(collector),
                *final(collector),
            ),
        default_ensures
            exists|m1: &mut Acc, m2: &mut Acc|
                {
                    &&& *m1 == *old(collector)
                    &&& call_ensures(Self::visit_identifier, (&tree.identifier, m1), ())
                    &&& in_turn(
                        tree.initial_values@,
                        |x: Value, a: Acc, b: Acc|
                            exists|m: &mut Acc|
                                *m == a && *final(m) == b
                                    && call_ensures(Self::visit_value, (&x, m), ()),
                        *final(m1),
                        *m2,
                    )
                    &&& call_ensures(Self::visit_var_type, (&tree.var_type, m2), ())
                    &&& *final(collector) == *final(m2)
                },
    {
        let ghost each = |id: Identifier, a: Acc, b: Acc|
            exists|m: &mut Acc|
                *m == a && *final(m) == b
                    && call_ensures(Self::visit_identifier, (&id, m), ());
        let ghost step = |x: Value, a: Acc, b: Acc|
            exists|m: &mut Acc|
                *m == a && *final(m) == b
                    && call_ensures(Self::visit_value, (&x, m), ());
        Self::visit_identifier(&tree.identifier, collector);
        let ghost s1 = *collector;
        let mut i: usize = 0;
        while i < tree.initial_values.len()
            invariant
                i <= tree.initial_values.len(),
                in_turn(tree.initial_values@.take(i as int), step, s1, *collector),
                Self::identifiers_only() ==> *collector == s1,
            decreases tree.initial_values.len() - i,
        {
            let ghost before = *collector;
            Self::visit_value(&tree.initial_values[i], collector);
            proof {
                lemma_in_turn_next(tree.initial_values@, step, i as int, s1, before, *collector);
            }
            i = i + 1;
        }
        proof {
            assert(tree.initial_values@.take(i as int) =~= tree.initial_values@);
        }
        Self::visit_var_type(&tree.var_type, collector);
        proof {
            if Self::identifiers_only() {
                lemma_in_turn_one(tree.identifier, each, *old(collector), s1);
                lemma_in_turn_add(
                    seq![tree.identifier],
                    tree.var_type.identifiers(),
                    each,
                    *old(collector),
                    s1,
                    *collector,
                );
            }
        }
    }

    /// Visits a storage class. There is nothing beneath it: the default
    /// does nothing.
    fn visit_type_qualifier(tree: &TypeQualifier, collector: &mut Acc)
        ensures
            Self::identifiers_only() ==> *final(collector) == *old(collector),
        default_ensures
            *final(collector) == *old(collector),
    {
    }

    /// Visits a type: what the variable holds, then its storage class.
    fn visit_var_type(tree: &VarType, collector: &mut Acc)
        ensures
            Self::identifiers_only() ==> in_turn(
                tree.identifiers(),
                |id: Identifier, a: Acc, b: Acc|
                    exists|m: &mut Acc|
                        *m == a && *final(m) == b
                            && call_ensures(Self::visit_identifier, (&id, m), ()),
                *old(collector),
                *final(collector),
            ),
        default_ensures
            exists|m1: &mut Acc, m2: &mut Acc|
                {
                    &&& *m1 == *old(collector)
                    &&& call_ensures(Self::visit_var_info, (&tree.var_info, m1), ())
                    &&& *m2 == *final(m1)
                    &&& call_ensures(Self::visit_type_qualifier, (&tree.type_qualifier, m2), ())
                    &&& *final(collector) == *final(m2)
                },
    {
        Self::visit_var_info(&tree.var_info, collector);
        Self::visit_type_qualifier(&tree.type_qualifier, collector);
    }

    /// Visits what a variable holds: the name of the packet type, where it
    /// holds a packet.
    fn visit_var_info(tree: &VarInfo, collector: &mut Acc)
        ensures
            Self::identifiers_only() ==> in_turn(
                tree.identifiers(),
                |id: Identifier, a: Acc, b: Acc|
                    exists|m: &mut Acc|
                        *m == a && *final(m) == b
                            && call_ensures(Self::visit_identifier, (&id, m), ()),
                *old(collector),
                *final(collector),
            ),
        default_ensures
            match tree {
                VarInfo::BitArray(_, _) => *final(collector) == *old(collector),
                VarInfo::Packet(id) => exists|m: &mut Acc|
                    {
                        &&& *m == *old(collector)
                        &&& call_ensures(Self::visit_identifier, (id, m), ())
                        &&& *final(collector) == *final(m)
                    },
            },
    {
        let ghost each = |id: Identifier, a: Acc, b: Acc|
            exists|m: &mut Acc|
                *m == a && *final(m) == b
                    && call_ensures(Self::visit_identifier, (&id, m), ());
        match tree {
            VarInfo::BitArray(_, _) => {},
            VarInfo::Packet(id) => {
                Self::visit_identifier(id, collector);
                proof {
                    lemma_in_turn_one(*id, each, *old(collector), *collector);
                }
            },
        }
    }

    /// Visits the statements of a block, one after the other.
    #[verifier::loop_isolation(false)]
    fn visit_statements(tree: &Statements, collector: &mut Acc)
        ensures
            Self::identifiers_only() ==> in_turn(
                tree.identifiers(),
                |id: Identifier, a: Acc, b: Acc|
                    exists|m: &mut Acc|
                        *m == a && *final(m) == b
                            && call_ensures(Self::visit_identifier, (&id, m), ()),
                *old(collector),
                *final(collector),
            ),
        default_ensures
            in_turn(
                tree.stmt_vector@,
                |x: Statement, a: Acc, b: Acc|
                    exists|m: &mut Acc|
                        *m == a && *final(m) == b
                            && call_ensures(Self::visit_statement, (&x, m), ()),
                *old(collector),
                *final(collector),
            ),
    {
        let ghost each = |id: Identifier, a: Acc, b: Acc|
            exists|m: &mut Acc|
                *m == a && *final(m) == b
                    && call_ensures(Self::visit_identifier, (&id, m), ());
        let ghost step = |x: Statement, a: Acc, b: Acc|
            exists|m: &mut Acc|
                *m == a && *final(m) == b
                    && call_ensures(Self::visit_statement, (&x, m), ());
        let ghost of = |x: Statement| x.identifiers();
        let mut i: usize = 0;
        while i < tree.stmt_vector.len()
            invariant
                i <= tree.stmt_vector.len(),
                in_turn(tree.stmt_vector@.take(i as int), step, *old(collector), *collector),
                Self::identifiers_only() ==> in_turn(
                    gather(tree.stmt_vector@.take(i as int), of),
                    each,
                    *old(collector),
                    *collector,
                ),
            decreases tree.stmt_vector.len() - i,
        {
            let ghost before = *collector;
            Self::visit_statement(&tree.stmt_vector[i], collector);
            proof {
                lemma_next_item(
                    tree.stmt_vector@,
                    of,
                    step,
                    each,
                    i as int,
                    *old(collector),
                    before,
                    *collector,
                    Self::identifiers_only(),
                );
            }
            i = i + 1;
        }
        proof {
            assert(tree.stmt_vector@.take(i as int) =~= tree.stmt_vector@);
        }
    }

    /// Visits an assignment: the assigned l-value, then the expression.
    fn visit_statement(tree: &Statement, collector: &mut Acc)
        ensures
            Self::identifiers_only() ==> in_turn(
                tree.identifiers(),
                |id: Identifier, a: Acc, b: Acc|
                    exists|m: &mut Acc|
                        *m == a && *final(m) == b
                            && call_ensures(Self::visit_identifier, (&id, m), ()),
                *old(collector),
                *final(collector),
            ),
        default_ensures
            exists|m1: &mut Acc, m2: &mut Acc|
                {
                    &&& *m1 == *old(collector)
                    &&& call_ensures(Self::visit_lvalue, (&tree.lvalue, m1), ())
                    &&& *m2 == *final(m1)
                    &&& call_ensures(Self::visit_expr, (&tree.expr, m2), ())
                    &&& *final(collector) == *final(m2)
                },
    {
        let ghost each = |id: Identifier, a: Acc, b: Acc|
            exists|m: &mut Acc|
                *m == a && *final(m) == b
                    && call_ensures(Self::visit_identifier, (&id, m), ());
        Self::visit_lvalue(&tree.lvalue, collector);
        let ghost s1 = *collector;
        Self::visit_expr(&tree.expr, collector);
        proof {
            if Self::identifiers_only() {
                lemma_in_turn_add(
                    tree.lvalue.identifiers(),
                    tree.expr.identifiers(),
                    each,
                    *old(collector),
                    s1,
                    *collector,
                );
            }
        }
    }

    /// Visits an expression: the left operand, then what follows it.
    fn visit_expr(tree: &Expr, collector: &mut Acc)
        ensures
            Self::identifiers_only() ==> in_turn(
                tree.identifiers(),
                |id: Identifier, a: Acc, b: Acc|
                    exists|m: &mut Acc|
                        *m == a && *final(m) == b
                            && call_ensures(Self::visit_identifier, (&id, m), ()),
                *old(collector),
                *final(collector),
            ),
        default_ensures
            exists|m1: &mut Acc, m2: &mut Acc|
                {
                    &&& *m1 == *old(collector)
                    &&& call_ensures(Self::visit_operand, (&tree.op1, m1), ())
                    &&& *m2 == *final(m1)
                    &&& call_ensures(Self::visit_expr_right, (&tree.expr_right, m2), ())
                    &&& *final(collector) == *final(m2)
                },
    {
        let ghost each = |id: Identifier, a: Acc, b: Acc|
            exists|m: &mut Acc|
                *m == a && *final(m) == b
                    && call_ensures(Self::visit_identifier, (&id, m), ());
        Self::visit_operand(&tree.op1, collector);
        let ghost s1 = *collector;
        Self::visit_expr_right(&tree.expr_right, collector);
        proof {
            if Self::identifiers_only() {
                lemma_in_turn_add(
                    tree.op1.identifiers(),
                    tree.expr_right.identifiers(),
                    each,
                    *old(collector),
                    s1,
                    *collector,
                );
            }
        }
    }

    /// Visits a binary operator. There is nothing beneath it: the default
    /// does nothing.
    fn visit_bin_op_type(tree: &BinOpType, collector: &mut Acc)
        ensures
            Self::identifiers_only() ==> *final(collector) == *old(collector),
        default_ensures
            *final(collector) == *old(collector),
    {
    }

    /// Visits what follows the left operand: the operator and the right
    /// operand, or the two operands of the conditional form, or nothing.
    fn visit_expr_right(tree: &ExprRight, collector: &mut Acc)
        ensures
            Self::identifiers_only() ==> in_turn(
                tree.identifiers(),
                |id: Identifier, a: Acc, b: Acc|
                    exists|m: &mut Acc|
                        *m == a && *final(m) == b
                            && call_ensures(Self::visit_identifier, (&id, m), ()),
                *old(collector),
                *final(collector),
            ),
        default_ensures
            match tree {
                ExprRight::BinOp(op, operand) => exists|m1: &mut Acc, m2: &mut Acc|
                    {
                        &&& *m1 == *old(collector)
                        &&& call_ensures(Self::visit_bin_op_type, (op, m1), ())
                        &&& *m2 == *final(m1)
                        &&& call_ensures(Self::visit_operand, (operand, m2), ())
                        &&& *final(collector) == *final(m2)
                    },
                ExprRight::Cond(first, second) => exists|m1: &mut Acc, m2: &mut Acc|
                    {
                        &&& *m1 == *old(collector)
                        &&& call_ensures(Self::visit_operand, (first, m1), ())
                        &&& *m2 == *final(m1)
                        &&& call_ensures(Self::visit_operand, (second, m2), ())
                        &&& *final(collector) == *final(m2)
                    },
                ExprRight::Empty() => *final(collector) == *old(collector),
            },
    {
        let ghost each = |id: Identifier, a: Acc, b: Acc|
            exists|m: &mut Acc|
                *m == a && *final(m) == b
                    && call_ensures(Self::visit_identifier, (&id, m), ());
        match tree {
            ExprRight::BinOp(op, operand) => {
                Self::visit_bin_op_type(op, collector);
                Self::visit_operand(operand, collector);
            },
            ExprRight::Cond(first, second) => {
                Self::visit_operand(first, collector);
                let ghost s1 = *collector;
                Self::visit_operand(second, collector);
                proof {
                    if Self::identifiers_only() {
                        lemma_in_turn_add(
                            first.identifiers(),
                            second.identifiers(),
                            each,
                            *old(collector),
                            s1,
                            *collector,
                        );
                    }
                }
            },
            ExprRight::Empty() => {},
        }
    }

    /// Visits an identifier. There is nothing beneath it: the default does
    /// nothing.
    fn visit_identifier(tree: &Identifier, collector: &mut Acc)
        default_ensures
            *final(collector) == *old(collector),
    {
    }

    /// Visits a literal. There is nothing beneath it: the default does
    /// nothing.
    fn visit_value(tree: &Value, collector: &mut Acc)
        ensures
            Self::identifiers_only() ==> *final(collector) == *old(collector),
        default_ensures
            *final(collector) == *old(collector),
    {
    }

    /// Visits an operand: the l-value or the literal that it is.
    fn visit_operand(tree: &Operand, collector: &mut Acc)
        ensures
            Self::identifiers_only() ==> in_turn(
                tree.identifiers(),
                |id: Identifier, a: Acc, b: Acc|
                    exists|m: &mut Acc|
                        *m == a && *final(m) == b
                            && call_ensures(Self::visit_identifier, (&id, m), ()),
                *old(collector),
                *final(collector),
            ),
        default_ensures
            exists|m: &mut Acc|
                {
                    &&& *m == *old(collector)
                    &&& match tree {
                        Operand::LValue(x) => call_ensures(Self::visit_lvalue, (x, m), ()),
                        Operand::Value(x) => call_ensures(Self::visit_value, (x, m), ()),
                    }
                    &&& *final(collector) == *final(m)
                },
    {
        match tree {
            Operand::LValue(lvalue) => Self::visit_lvalue(lvalue, collector),
            Operand::Value(value) => Self::visit_value(value, collector),
        }
    }

    /// Visits an l-value: the variable, then the field, or the index with
    /// all that is nested in it.
    ///
    /// An index that is itself an array l-value is walked here, level after
    /// level: the identifiers on the way go to
    /// [`TreeFold::visit_identifier`] and a literal at the end to
    /// [`TreeFold::visit_value`].
    #[verifier::loop_isolation(false)]
    fn visit_lvalue(tree: &LValue, collector: &mut Acc)
        ensures
            Self::identifiers_only() ==> in_turn(
                tree.identifiers(),
                |id: Identifier, a: Acc, b: Acc|
                    exists|m: &mut Acc|
                        *m == a && *final(m) == b
                            && call_ensures(Self::visit_identifier, (&id, m), ()),
                *old(collector),
                *final(collector),
            ),
        default_ensures
            match tree.literal_index() {
                Some(value) => exists|last: &mut Acc|
                    {
                        &&& in_turn(
                            tree.identifiers(),
                            |id: Identifier, a: Acc, b: Acc|
                                exists|m: &mut Acc|
                                    *m == a && *final(m) == b
                                        && call_ensures(Self::visit_identifier, (&id, m), ()),
                            *old(collector),
                            *last,
                        )
                        &&& call_ensures(Self::visit_value, (&value, last), ())
                        &&& *final(collector) == *final(last)
                    },
                None => in_turn(
                    tree.identifiers(),
                    |id: Identifier, a: Acc, b: Acc|
                        exists|m: &mut Acc|
                            *m == a && *final(m) == b
                                && call_ensures(Self::visit_identifier, (&id, m), ()),
                    *old(collector),
                    *final(collector),
                ),
            },
    {
        let ghost each = |id: Identifier, a: Acc, b: Acc|
            exists|m: &mut Acc|
                *m == a && *final(m) == b
                    && call_ensures(Self::visit_identifier, (&id, m), ());
        let ghost mut seen: Seq<Identifier> = Seq::empty();
        let mut node = tree;
        loop
            invariant
                in_turn(seen, each, *old(collector), *collector),
                seen + node.identifiers() == tree.identifiers(),
                node.literal_index() == tree.literal_index(),
            decreases node,
        {
            let ghost before = *collector;
            match node {
                LValue::Scalar(id) => {
                    Self::visit_identifier(id, collector);
                    proof {
                        lemma_in_turn_one(*id, each, before, *collector);
                        lemma_in_turn_add(
                            seen,
                            seq![*id],
                            each,
                            *old(collector),
                            before,
                            *collector,
                        );
                    }
                    return ;
                },
                LValue::Field(id, field) => {
                    Self::visit_identifier(id, collector);
                    let ghost mid = *collector;
                    Self::visit_identifier(field, collector);
                    proof {
                        lemma_in_turn_one(*id, each, before, mid);
                        lemma_in_turn_one(*field, each, mid, *collector);
                        lemma_in_turn_add(seq![*id], seq![*field], each, before, mid, *collector);
                        assert(seq![*id] + seq![*field] =~= seq![*id, *field]);
                        lemma_in_turn_add(
                            seen,
                            seq![*id, *field],
                            each,
                            *old(collector),
                            before,
                            *collector,
                        );
                    }
                    return ;
                },
                LValue::Array(id, index) => {
                    Self::visit_identifier(id, collector);
                    proof {
                        lemma_in_turn_one(*id, each, before, *collector);
                        lemma_in_turn_add(
                            seen,
                            seq![*id],
                            each,
                            *old(collector),
                            before,
                            *collector,
                        );
                        assert(seen + seq![*id] + index.identifiers() =~= seen
                            + node.identifiers());
                        seen = seen + seq![*id];
                    }
                    match &**index {
                        Operand::LValue(inner) => {
                            node = inner;
                        },
                        Operand::Value(value) => {
                            let ghost mid = *collector;
                            Self::visit_value(value, collector);
                            proof {
                                assert(seen + Seq::<Identifier>::empty() =~= seen);
                                assert(in_turn(tree.identifiers(), each, *old(collector), mid));
                            }
                            return ;
                        },
                    }
                },
            }
        }
    }
}

} // verus!
