//! The mathematical view of the syntax tree.
//!
//! Each node is viewed as a value built from sequences, characters and
//! integers. Two trees have the same view exactly when they hold the same
//! values in the same places.

use crate::grammar::{
    BinOpType, Condition, Connection, Connections, Expr, ExprRight, Globals, Identifier, IfBlock,
    IfBlocks, LValue, Operand, Packet, PacketField, PacketFields, Packets, Prog, Snippet,
    Snippets, Statement, Statements, TypeQualifier, Value, VarInfo, VarType, VariableDecl,
    VariableDecls, VariablePair,
};
use vstd::prelude::*;

verus! {

/// The view of a [`Prog`].
pub struct SpecProg {
    pub globals: Seq<SpecVariableDecl>,
    pub packets: Seq<SpecPacket>,
    pub snippets: Seq<SpecSnippet>,
    pub connections: Seq<SpecConnection>,
}

/// The view of a [`Packet`].
pub struct SpecPacket {
    pub packet_id: Seq<char>,
    pub packet_fields: Seq<SpecPacketField>,
}

/// The view of a [`PacketField`].
pub struct SpecPacketField {
    pub identifier: Seq<char>,
    pub var_type: SpecVarType,
}

/// The view of a [`Snippet`].
pub struct SpecSnippet {
    pub snippet_id: Seq<char>,
    pub device_id: Seq<char>,
    pub variable_decls: Seq<SpecVariableDecl>,
    pub ifblocks: Seq<SpecIfBlock>,
}

/// The view of an [`IfBlock`].
pub struct SpecIfBlock {
    pub id: u64,
    pub condtype: u64,
    pub condition: SpecExpr,
    pub statements: Seq<SpecStatement>,
}

/// The view of a [`Connection`].
pub struct SpecConnection {
    pub from_snippet: Seq<char>,
    pub to_snippet: Seq<char>,
    pub variable_pairs: Seq<SpecVariablePair>,
}

/// The view of a [`VariablePair`].
pub struct SpecVariablePair {
    pub from_var: Seq<char>,
    pub to_var: Seq<char>,
}

/// The view of a [`VariableDecl`].
pub struct SpecVariableDecl {
    pub identifier: Seq<char>,
    pub initial_values: Seq<u64>,
    pub var_type: SpecVarType,
}

/// The view of a [`VarType`].
pub struct SpecVarType {
    pub var_info: SpecVarInfo,
    pub type_qualifier: TypeQualifier,
}

/// The view of a [`VarInfo`].
pub enum SpecVarInfo {
    BitArray(u64, u64),
    Packet(Seq<char>),
}

/// The view of a [`Statement`].
pub struct SpecStatement {
    pub lvalue: SpecLValue,
    pub expr: SpecExpr,
}

/// The view of an [`Expr`].
pub struct SpecExpr {
    pub op1: SpecOperand,
    pub expr_right: SpecExprRight,
}

/// The view of an [`ExprRight`].
pub enum SpecExprRight {
    BinOp(BinOpType, SpecOperand),
    Cond(SpecOperand, SpecOperand),
    Empty,
}

/// The view of an [`Operand`].
pub enum SpecOperand {
    LValue(SpecLValue),
    Value(u64),
}

/// The view of an [`LValue`].
pub enum SpecLValue {
    Scalar(Seq<char>),
    Array(Seq<char>, Box<SpecOperand>),
    Field(Seq<char>, Seq<char>),
}

/// The character that stands for a decimal digit. Meant for `d < 10`.
pub open spec fn digit_char(d: nat) -> char {
    if d == 0 {
        '0'
    } else if d == 1 {
        '1'
    } else if d == 2 {
        '2'
    } else if d == 3 {
        '3'
    } else if d == 4 {
        '4'
    } else if d == 5 {
        '5'
    } else if d == 6 {
        '6'
    } else if d == 7 {
        '7'
    } else if d == 8 {
        '8'
    } else {
        '9'
    }
}

/// A number in decimal: most significant digit first, no leading zero, and
/// `0` for zero.
pub open spec fn decimal(n: nat) -> Seq<char>
    decreases n,
{
    if n < 10 {
        seq![digit_char(n)]
    } else {
        decimal(n / 10).push(digit_char(n % 10))
    }
}

impl SpecOperand {
    /// How an operand is written: a literal in decimal, an l-value as
    /// [`SpecLValue::text`] has it.
    pub open spec fn text(self) -> Seq<char>
        decreases self,
    {
        match self {
            SpecOperand::LValue(lvalue) => lvalue.text(),
            SpecOperand::Value(value) => decimal(value as nat),
        }
    }

    /// Whether the operand is a bare variable.
    pub open spec fn is_scalar(self) -> bool {
        self matches SpecOperand::LValue(SpecLValue::Scalar(_))
    }
}

impl SpecLValue {
    /// How an l-value is written: `name`, `name [ index ] ` with a space
    /// after the closing bracket, or `name . field`.
    pub open spec fn text(self) -> Seq<char>
        decreases self,
    {
        match self {
            SpecLValue::Scalar(name) => name,
            SpecLValue::Array(name, index) => name + seq![' ', '[', ' '] + index.text() + seq![
                ' ',
                ']',
                ' ',
            ],
            SpecLValue::Field(name, field) => name + seq![' ', '.', ' '] + field,
        }
    }
}

/// The view of an operand, by recursion on the tree.
pub open spec fn operand_view(operand: Operand) -> SpecOperand
    decreases operand,
{
    match operand {
        Operand::LValue(lvalue) => SpecOperand::LValue(lvalue_view(lvalue)),
        Operand::Value(value) => SpecOperand::Value(value.value),
    }
}

/// The view of an l-value, by recursion on the tree.
pub open spec fn lvalue_view(lvalue: LValue) -> SpecLValue
    decreases lvalue,
{
    match lvalue {
        LValue::Scalar(id) => SpecLValue::Scalar(id.id_name@),
        LValue::Array(id, index) => SpecLValue::Array(id.id_name@, Box::new(operand_view(*index))),
        LValue::Field(id, field) => SpecLValue::Field(id.id_name@, field.id_name@),
    }
}

impl<'a> View for Identifier<'a> {
    type V = Seq<char>;

    open spec fn view(&self) -> Seq<char> {
        self.id_name@
    }
}

impl View for Value {
    type V = u64;

    open spec fn view(&self) -> u64 {
        self.value
    }
}

impl<'a> View for Operand<'a> {
    type V = SpecOperand;

    open spec fn view(&self) -> SpecOperand {
        operand_view(*self)
    }
}

impl<'a> View for LValue<'a> {
    type V = SpecLValue;

    open spec fn view(&self) -> SpecLValue {
        lvalue_view(*self)
    }
}

impl<'a> View for ExprRight<'a> {
    type V = SpecExprRight;

    open spec fn view(&self) -> SpecExprRight {
        match *self {
            ExprRight::BinOp(op, operand) => SpecExprRight::BinOp(op, operand@),
            ExprRight::Cond(first, second) => SpecExprRight::Cond(first@, second@),
            ExprRight::Empty() => SpecExprRight::Empty,
        }
    }
}

impl<'a> View for Expr<'a> {
    type V = SpecExpr;

    open spec fn view(&self) -> SpecExpr {
        SpecExpr { op1: self.op1@, expr_right: self.expr_right@ }
    }
}

impl<'a> View for Statement<'a> {
    type V = SpecStatement;

    open spec fn view(&self) -> SpecStatement {
        SpecStatement { lvalue: self.lvalue@, expr: self.expr@ }
    }
}

impl<'a> View for Statements<'a> {
    type V = Seq<SpecStatement>;

    open spec fn view(&self) -> Seq<SpecStatement> {
        self.stmt_vector@.map_values(|s: Statement<'a>| s@)
    }
}

impl<'a> View for Condition<'a> {
    type V = SpecExpr;

    open spec fn view(&self) -> SpecExpr {
        self.expr@
    }
}

impl<'a> View for IfBlock<'a> {
    type V = SpecIfBlock;

    open spec fn view(&self) -> SpecIfBlock {
        SpecIfBlock {
            id: self.id,
            condtype: self.condtype,
            condition: self.condition@,
            statements: self.statements@,
        }
    }
}

impl<'a> View for IfBlocks<'a> {
    type V = Seq<SpecIfBlock>;

    open spec fn view(&self) -> Seq<SpecIfBlock> {
        self.ifblock_vector@.map_values(|b: IfBlock<'a>| b@)
    }
}

impl<'a> View for VarInfo<'a> {
    type V = SpecVarInfo;

    open spec fn view(&self) -> SpecVarInfo {
        match *self {
            VarInfo::BitArray(bit_width, var_size) => SpecVarInfo::BitArray(bit_width, var_size),
            VarInfo::Packet(id) => SpecVarInfo::Packet(id@),
        }
    }
}

impl<'a> View for VarType<'a> {
    type V = SpecVarType;

    open spec fn view(&self) -> SpecVarType {
        SpecVarType { var_info: self.var_info@, type_qualifier: self.type_qualifier }
    }
}

impl<'a> View for VariableDecl<'a> {
    type V = SpecVariableDecl;

    open spec fn view(&self) -> SpecVariableDecl {
        SpecVariableDecl {
            identifier: self.identifier@,
            initial_values: self.initial_values@.map_values(|v: Value| v@),
            var_type: self.var_type@,
        }
    }
}

impl<'a> View for VariableDecls<'a> {
    type V = Seq<SpecVariableDecl>;

    open spec fn view(&self) -> Seq<SpecVariableDecl> {
        self.decl_vector@.map_values(|d: VariableDecl<'a>| d@)
    }
}

impl<'a> View for Globals<'a> {
    type V = Seq<SpecVariableDecl>;

    open spec fn view(&self) -> Seq<SpecVariableDecl> {
        self.global_vector@.map_values(|d: VariableDecl<'a>| d@)
    }
}

impl<'a> View for PacketField<'a> {
    type V = SpecPacketField;

    open spec fn view(&self) -> SpecPacketField {
        SpecPacketField { identifier: self.identifier@, var_type: self.var_type@ }
    }
}

impl<'a> View for PacketFields<'a> {
    type V = Seq<SpecPacketField>;

    open spec fn view(&self) -> Seq<SpecPacketField> {
        self.field_vector@.map_values(|f: PacketField<'a>| f@)
    }
}

impl<'a> View for Packet<'a> {
    type V = SpecPacket;

    open spec fn view(&self) -> SpecPacket {
        SpecPacket { packet_id: self.packet_id@, packet_fields: self.packet_fields@ }
    }
}

impl<'a> View for Packets<'a> {
    type V = Seq<SpecPacket>;

    open spec fn view(&self) -> Seq<SpecPacket> {
        self.packet_vector@.map_values(|p: Packet<'a>| p@)
    }
}

impl<'a> View for Snippet<'a> {
    type V = SpecSnippet;

    open spec fn view(&self) -> SpecSnippet {
        SpecSnippet {
            snippet_id: self.snippet_id@,
            device_id: self.device_id@,
            variable_decls: self.variable_decls@,
            ifblocks: self.ifblocks@,
        }
    }
}

impl<'a> View for Snippets<'a> {
    type V = Seq<SpecSnippet>;

    open spec fn view(&self) -> Seq<SpecSnippet> {
        self.snippet_vector@.map_values(|s: Snippet<'a>| s@)
    }
}

impl<'a> View for VariablePair<'a> {
    type V = SpecVariablePair;

    open spec fn view(&self) -> SpecVariablePair {
        SpecVariablePair { from_var: self.from_var@, to_var: self.to_var@ }
    }
}

impl<'a> View for Connection<'a> {
    type V = SpecConnection;

    open spec fn view(&self) -> SpecConnection {
        SpecConnection {
            from_snippet: self.from_snippet@,
            to_snippet: self.to_snippet@,
            variable_pairs: self.variable_pairs@.map_values(|p: VariablePair<'a>| p@),
        }
    }
}

impl<'a> View for Connections<'a> {
    type V = Seq<SpecConnection>;

    open spec fn view(&self) -> Seq<SpecConnection> {
        self.connection_vector@.map_values(|c: Connection<'a>| c@)
    }
}

impl<'a> View for Prog<'a> {
    type V = SpecProg;

    open spec fn view(&self) -> SpecProg {
        SpecProg {
            globals: self.globals@,
            packets: self.packets@,
            snippets: self.snippets@,
            connections: self.connections@,
        }
    }
}

} // verus!
