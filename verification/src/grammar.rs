//! The nodes of the syntax tree.
//!
//! The tree is built once and read afterwards: no node points back at its
//! parent, and an identifier borrows its name from the source text.

use crate::model::{decimal, digit_char, SpecLValue, SpecOperand};
use vstd::prelude::*;
use vstd::string::*;

verus! {

/// A whole program.
#[derive(Debug)]
pub struct Prog<'a> {
    pub globals: Globals<'a>,
    pub packets: Packets<'a>,
    pub snippets: Snippets<'a>,
    pub connections: Connections<'a>,
}

/// The variables that every snippet can see, in declaration order.
#[derive(Debug)]
pub struct Globals<'a> {
    pub global_vector: Vec<VariableDecl<'a>>,
}

/// The packet types of a program, in declaration order.
#[derive(Debug)]
pub struct Packets<'a> {
    pub packet_vector: Vec<Packet<'a>>,
}

/// A named record type that devices exchange.
#[derive(Debug)]
pub struct Packet<'a> {
    pub packet_id: Identifier<'a>,
    pub packet_fields: PacketFields<'a>,
}

/// The fields of a packet. Their order is the layout of the packet.
#[derive(Debug)]
pub struct PacketFields<'a> {
    pub field_vector: Vec<PacketField<'a>>,
}

/// One field of a packet.
#[derive(Debug)]
pub struct PacketField<'a> {
    pub identifier: Identifier<'a>,
    pub var_type: VarType<'a>,
}

/// The snippets of a program, in declaration order.
#[derive(Debug)]
pub struct Snippets<'a> {
    pub snippet_vector: Vec<Snippet<'a>>,
}

/// The program of one device.
#[derive(Debug)]
pub struct Snippet<'a> {
    pub snippet_id: Identifier<'a>,
    pub device_id: Identifier<'a>,
    pub variable_decls: VariableDecls<'a>,
    pub ifblocks: IfBlocks<'a>,
}

/// The guarded blocks of a snippet, in the order in which their guards are
/// evaluated. Each block is evaluated on its own.
#[derive(Debug)]
pub struct IfBlocks<'a> {
    pub ifblock_vector: Vec<IfBlock<'a>>,
}

/// A group of statements that runs when its condition holds.
///
/// `id` is unique within the snippet. What `condtype` means is left to the
/// pass that reads it.
#[derive(Debug)]
pub struct IfBlock<'a> {
    pub id: u64,
    pub condtype: u64,
    pub condition: Condition<'a>,
    pub statements: Statements<'a>,
}

/// The guard of a block.
#[derive(Debug)]
pub struct Condition<'a> {
    pub expr: Expr<'a>,
}

/// The connections of a program, in declaration order.
#[derive(Debug)]
pub struct Connections<'a> {
    pub connection_vector: Vec<Connection<'a>>,
}

/// Wires output variables of one snippet to input variables of another.
#[derive(Debug)]
pub struct Connection<'a> {
    pub from_snippet: Identifier<'a>,
    pub to_snippet: Identifier<'a>,
    pub variable_pairs: Vec<VariablePair<'a>>,
}

/// The output variable `from_var` feeds the input variable `to_var`.
#[derive(Debug)]
pub struct VariablePair<'a> {
    pub from_var: Identifier<'a>,
    pub to_var: Identifier<'a>,
}

/// The variables local to a snippet, in declaration order.
#[derive(Debug)]
pub struct VariableDecls<'a> {
    pub decl_vector: Vec<VariableDecl<'a>>,
}

/// A variable with its initial values and its type.
#[derive(Debug)]
pub struct VariableDecl<'a> {
    pub identifier: Identifier<'a>,
    pub initial_values: Vec<Value>,
    pub var_type: VarType<'a>,
}

/// The storage class of a variable.
#[derive(Debug, Clone, Copy, PartialEq, Eq, Structural)]
pub enum TypeQualifier {
    Input,
    Output,
    Persistent,
    Transient,
    Const,
    Field,
    Global,
}

/// What a variable holds, and its storage class.
#[derive(Debug)]
pub struct VarType<'a> {
    pub var_info: VarInfo<'a>,
    pub type_qualifier: TypeQualifier,
}

/// The shape of primitive storage: `var_size` elements of `bit_width` bits
/// each. One element is a scalar.
#[derive(Debug, Clone, Copy, PartialEq, Eq, Structural)]
pub struct BitArray {
    pub bit_width: u64,
    pub var_size: u64,
}

/// What a variable holds.
#[derive(Debug)]
pub enum VarInfo<'a> {
    /// Primitive storage: the width of an element in bits, then the number
    /// of elements.
    BitArray(u64, u64),
    /// A packet, by the name of its type.
    Packet(Identifier<'a>),
}

/// The statements of a block, in execution order.
#[derive(Debug)]
pub struct Statements<'a> {
    pub stmt_vector: Vec<Statement<'a>>,
}

/// An assignment of `expr` to `lvalue`.
#[derive(Debug)]
pub struct Statement<'a> {
    pub lvalue: LValue<'a>,
    pub expr: Expr<'a>,
}

/// A left operand and what follows it.
#[derive(Debug)]
pub struct Expr<'a> {
    pub op1: Operand<'a>,
    pub expr_right: ExprRight<'a>,
}

/// A binary operator.
#[derive(Debug, Clone, Copy, PartialEq, Eq, Structural)]
pub enum BinOpType {
    BooleanAnd,
    BooleanOr,
    Plus,
    Minus,
    Mul,
    Div,
    Modulo,
    Equal,
    NotEqual,
    LTEQOp,
    GTEQOp,
    LessThan,
    GreaterThan,
}

/// What follows the left operand of an expression.
#[derive(Debug)]
pub enum ExprRight<'a> {
    /// An operator and its right operand.
    BinOp(BinOpType, Operand<'a>),
    /// The two-operand conditional form.
    Cond(Operand<'a>, Operand<'a>),
    /// Nothing: the expression is its left operand.
    Empty(),
}

/// A name, borrowed from the source text.
#[derive(Debug)]
pub struct Identifier<'a> {
    pub id_name: &'a str,
}

/// An unsigned 64-bit literal.
#[derive(Debug)]
pub struct Value {
    pub value: u64,
}

/// Something that can be referred to, or a literal.
#[derive(Debug)]
pub enum Operand<'a> {
    LValue(LValue<'a>),
    Value(Value),
}

/// Something that can be assigned to.
#[derive(Debug)]
pub enum LValue<'a> {
    /// A variable.
    Scalar(Identifier<'a>),
    /// An element of an array variable. The index is any operand.
    Array(Identifier<'a>, Box<Operand<'a>>),
    /// A field of a packet variable.
    Field(Identifier<'a>, Identifier<'a>),
}

impl<'a> Identifier<'a> {
    /// The name.
    pub fn get_str(&self) -> (name: &str)
        ensures
            name@ == self@,
    {
        self.id_name
    }
}

/// The one-character string of a decimal digit.
fn digit_str(d: u64) -> (s: &'static str)
    requires
        d < 10,
    ensures
        s@ == seq![digit_char(d as nat)],
{
    proof {
        reveal_strlit("0");
        reveal_strlit("1");
        reveal_strlit("2");
        reveal_strlit("3");
        reveal_strlit("4");
        reveal_strlit("5");
        reveal_strlit("6");
        reveal_strlit("7");
        reveal_strlit("8");
        reveal_strlit("9");
    }
    let s = if d == 0 {
        "0"
    } else if d == 1 {
        "1"
    } else if d == 2 {
        "2"
    } else if d == 3 {
        "3"
    } else if d == 4 {
        "4"
    } else if d == 5 {
        "5"
    } else if d == 6 {
        "6"
    } else if d == 7 {
        "7"
    } else if d == 8 {
        "8"
    } else {
        "9"
    };
    assert(s@ =~= seq![digit_char(d as nat)]);
    s
}

/// Writes a number in decimal.
fn decimal_string(n: u64) -> (s: String)
    ensures
        s@ == decimal(n as nat),
    decreases n,
{
    if n < 10 {
        String::from_str(digit_str(n))
    } else {
        let mut s = decimal_string(n / 10);
        s.append(digit_str(n % 10));
        assert(s@ =~= decimal((n / 10) as nat).push(digit_char((n % 10) as nat)));
        s
    }
}

impl Value {
    /// The literal in decimal.
    pub fn get_string(&self) -> (s: String)
        ensures
            s@ == decimal(self.value as nat),
    {
        decimal_string(self.value)
    }
}

impl<'a> Operand<'a> {
    /// Whether the operand is a bare variable.
    pub fn is_scalar(&self) -> (b: bool)
        ensures
            b == self@.is_scalar(),
    {
        match self {
            Operand::LValue(LValue::Scalar(_)) => true,
            _ => false,
        }
    }

    /// Whether the operand is a literal.
    pub fn is_val(&self) -> (b: bool)
        ensures
            b == (self@ is Value),
    {
        match self {
            Operand::Value(_) => true,
            _ => false,
        }
    }

    /// The name of a bare variable.
    ///
    /// To be called once [`Operand::is_scalar`] has said yes. Code that
    /// calls it otherwise does not verify, and aborts if it is run.
    pub fn get_id(&self) -> (name: &str)
        requires
            self@.is_scalar(),
        ensures
            self@ == SpecOperand::LValue(SpecLValue::Scalar(name@)),
    {
        match self {
            Operand::LValue(LValue::Scalar(id)) => id.get_str(),
            _ => unreached(),
        }
    }

    /// The literal of a literal operand, in decimal.
    ///
    /// To be called once [`Operand::is_val`] has said yes. Code that calls
    /// it otherwise does not verify, and aborts if it is run.
    pub fn get_val(&self) -> (s: String)
        requires
            self@ is Value,
        ensures
            s@ == decimal(self@->Value_0 as nat),
    {
        match self {
            Operand::Value(value) => value.get_string(),
            _ => unreached(),
        }
    }

    /// How the operand is written.
    pub fn get_string(&self) -> (s: String)
        ensures
            s@ == self@.text(),
        decreases self,
    {
        match self {
            Operand::Value(value) => value.get_string(),
            Operand::LValue(lvalue) => lvalue.get_string(),
        }
    }
}

impl<'a> LValue<'a> {
    /// How the l-value is written: `name`, `name [ index ] `, or
    /// `name . field`.
    pub fn get_string(&self) -> (s: String)
        ensures
            s@ == self@.text(),
        decreases self,
    {
        match self {
            LValue::Scalar(id) => id.get_str().to_owned(),
            LValue::Array(id, address) => {
                proof {
                    reveal_strlit(" [ ");
                    reveal_strlit(" ] ");
                    assert(" [ "@ =~= seq![' ', '[', ' ']);
                    assert(" ] "@ =~= seq![' ', ']', ' ']);
                }
                let mut s = id.get_str().to_owned();
                s.append(" [ ");
                let index = address.get_string();
                s.append(index.as_str());
                s.append(" ] ");
                s
            },
            LValue::Field(id, field_name) => {
                proof {
                    reveal_strlit(" . ");
                    assert(" . "@ =~= seq![' ', '.', ' ']);
                }
                let mut s = id.get_str().to_owned();
                s.append(" . ");
                s.append(field_name.get_str());
                s
            },
        }
    }
}

} // verus!
