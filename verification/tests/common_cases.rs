use snippet_ast::grammar::{
    BinOpType, BitArray, Condition, Connection, Connections, Expr, ExprRight, Globals, Identifier,
    IfBlock, IfBlocks, LValue, Operand, Packet, PacketField, PacketFields, Packets, Prog, Snippet,
    Snippets, Statement, Statements, TypeQualifier, Value, VarInfo, VarType, VariableDecl,
    VariableDecls, VariablePair,
};
use snippet_ast::equality::{lvalue_eq, operand_eq, same_text};
use snippet_ast::symbol_table_pass::SymbolTablePass;
use snippet_ast::tree_fold::TreeFold;

fn id(name: &str) -> Identifier<'_> {
    Identifier { id_name: name }
}

fn scalar(name: &str) -> Operand<'_> {
    Operand::LValue(LValue::Scalar(id(name)))
}

fn literal(value: u64) -> Operand<'static> {
    Operand::Value(Value { value })
}

fn bits(width: u64, size: u64, qualifier: TypeQualifier) -> VarType<'static> {
    VarType { var_info: VarInfo::BitArray(width, size), type_qualifier: qualifier }
}

fn empty_prog() -> Prog<'static> {
    Prog {
        globals: Globals { global_vector: vec![] },
        packets: Packets { packet_vector: vec![] },
        snippets: Snippets { snippet_vector: vec![] },
        connections: Connections { connection_vector: vec![] },
    }
}

/// `y = x + 1`
fn y_is_x_plus_1() -> Statement<'static> {
    Statement {
        lvalue: LValue::Scalar(id("y")),
        expr: Expr {
            op1: scalar("x"),
            expr_right: ExprRight::BinOp(BinOpType::Plus, literal(1)),
        },
    }
}

/// A program that uses every kind of node.
fn sample_prog(width: u64) -> Prog<'static> {
    let global = VariableDecl {
        identifier: id("total"),
        initial_values: vec![Value { value: 0 }, Value { value: 7 }],
        var_type: bits(width, 2, TypeQualifier::Global),
    };
    let packet = Packet {
        packet_id: id("reading"),
        packet_fields: PacketFields {
            field_vector: vec![
                PacketField { identifier: id("hdr"), var_type: bits(8, 1, TypeQualifier::Field) },
                PacketField { identifier: id("temp"), var_type: bits(16, 1, TypeQualifier::Field) },
            ],
        },
    };
    let local = VariableDecl {
        identifier: id("pkt"),
        initial_values: vec![],
        var_type: VarType {
            var_info: VarInfo::Packet(id("reading")),
            type_qualifier: TypeQualifier::Input,
        },
    };
    let block = IfBlock {
        id: 1,
        condtype: 0,
        condition: Condition {
            expr: Expr {
                op1: Operand::LValue(LValue::Field(id("pkt"), id("hdr"))),
                expr_right: ExprRight::BinOp(BinOpType::Equal, literal(4)),
            },
        },
        statements: Statements {
            stmt_vector: vec![
                y_is_x_plus_1(),
                Statement {
                    lvalue: LValue::Array(
                        id("arr"),
                        Box::new(Operand::LValue(LValue::Array(id("idx"), Box::new(scalar("k"))))),
                    ),
                    expr: Expr {
                        op1: scalar("total"),
                        expr_right: ExprRight::Cond(scalar("y"), literal(9)),
                    },
                },
                Statement {
                    lvalue: LValue::Scalar(id("out")),
                    expr: Expr { op1: literal(5), expr_right: ExprRight::Empty() },
                },
            ],
        },
    };
    let sensor = Snippet {
        snippet_id: id("sense"),
        device_id: id("node_a"),
        variable_decls: VariableDecls { decl_vector: vec![local] },
        ifblocks: IfBlocks { ifblock_vector: vec![block] },
    };
    let sink = Snippet {
        snippet_id: id("store"),
        device_id: id("node_b"),
        variable_decls: VariableDecls { decl_vector: vec![] },
        ifblocks: IfBlocks { ifblock_vector: vec![] },
    };
    let wire = Connection {
        from_snippet: id("sense"),
        to_snippet: id("store"),
        variable_pairs: vec![
            VariablePair { from_var: id("out"), to_var: id("inp") },
            VariablePair { from_var: id("y"), to_var: id("z") },
        ],
    };
    Prog {
        globals: Globals { global_vector: vec![global] },
        packets: Packets { packet_vector: vec![packet] },
        snippets: Snippets { snippet_vector: vec![sensor, sink] },
        connections: Connections { connection_vector: vec![wire] },
    }
}

/// The identifiers of `sample_prog`, as they are written from top to bottom.
fn sample_identifiers() -> Vec<&'static str> {
    vec![
        "total", "reading", "hdr", "temp", "sense", "node_a", "pkt", "reading", "pkt", "hdr", "y",
        "x", "arr", "idx", "k", "total", "y", "out", "store", "node_b", "sense", "store", "out",
        "inp", "y", "z",
    ]
}

/// A pass that writes down each identifier that it is shown.
struct Recorder;

impl TreeFold<Vec<String>> for Recorder {
    fn visit_identifier(tree: &Identifier, collector: &mut Vec<String>) {
        collector.push(tree.get_str().to_string());
    }
}

/// A pass that counts the nodes of some kinds and stops the walk nowhere.
struct LeafCounter;

impl TreeFold<(u64, u64, u64, u64)> for LeafCounter {
    fn visit_identifier(_tree: &Identifier, collector: &mut (u64, u64, u64, u64)) {
        collector.0 += 1;
    }

    fn visit_value(_tree: &Value, collector: &mut (u64, u64, u64, u64)) {
        collector.1 += 1;
    }

    fn visit_type_qualifier(_tree: &TypeQualifier, collector: &mut (u64, u64, u64, u64)) {
        collector.2 += 1;
    }

    fn visit_bin_op_type(_tree: &BinOpType, collector: &mut (u64, u64, u64, u64)) {
        collector.3 += 1;
    }
}

/// A pass that overrides an inner visit and does not go below it.
struct StatementCounter;

impl TreeFold<Vec<String>> for StatementCounter {
    fn visit_statement(tree: &Statement, collector: &mut Vec<String>) {
        collector.push(tree.lvalue.get_string());
    }

    fn visit_identifier(tree: &Identifier, collector: &mut Vec<String>) {
        collector.push(tree.get_str().to_string());
    }
}

#[test]
fn identifier_exposes_its_name() {
    assert_eq!(id("counter").get_str(), "counter");
    assert_eq!(id("").get_str(), "");
}

#[test]
fn value_is_written_in_decimal() {
    assert_eq!(Value { value: 0 }.get_string(), "0");
    assert_eq!(Value { value: 7 }.get_string(), "7");
    assert_eq!(Value { value: 10 }.get_string(), "10");
    assert_eq!(Value { value: 42 }.get_string(), "42");
    assert_eq!(Value { value: 1000 }.get_string(), "1000");
    assert_eq!(Value { value: 9_876_543_210 }.get_string(), "9876543210");
    assert_eq!(Value { value: u64::MAX }.get_string(), "18446744073709551615");
}

#[test]
fn value_string_agrees_with_std() {
    let mut n: u64 = 1;
    for _ in 0..19 {
        assert_eq!(Value { value: n }.get_string(), n.to_string());
        assert_eq!(Value { value: n - 1 }.get_string(), (n - 1).to_string());
        assert_eq!(Value { value: n + 1 }.get_string(), (n + 1).to_string());
        n *= 10;
    }
}

#[test]
fn lvalue_scalar_string() {
    assert_eq!(LValue::Scalar(id("x")).get_string(), "x");
}

#[test]
fn lvalue_array_string() {
    let lvalue = LValue::Array(id("arr"), Box::new(literal(3)));
    assert_eq!(lvalue.get_string(), "arr [ 3 ] ");
}

#[test]
fn lvalue_field_string() {
    assert_eq!(LValue::Field(id("pkt"), id("hdr")).get_string(), "pkt . hdr");
}

#[test]
fn lvalue_array_with_variable_index() {
    let lvalue = LValue::Array(id("arr"), Box::new(scalar("i")));
    assert_eq!(lvalue.get_string(), "arr [ i ] ");
}

#[test]
fn lvalue_nested_array_string() {
    let inner = LValue::Array(id("idx"), Box::new(literal(12)));
    let lvalue = LValue::Array(id("arr"), Box::new(Operand::LValue(inner)));
    assert_eq!(lvalue.get_string(), "arr [ idx [ 12 ]  ] ");
    let field = LValue::Array(id("a"), Box::new(Operand::LValue(LValue::Field(id("p"), id("f")))));
    assert_eq!(field.get_string(), "a [ p . f ] ");
}

#[test]
fn operand_value_string() {
    assert_eq!(Operand::Value(Value { value: 42 }).get_string(), "42");
}

#[test]
fn operand_lvalue_string() {
    assert_eq!(scalar("x").get_string(), "x");
    assert_eq!(Operand::LValue(LValue::Field(id("pkt"), id("hdr"))).get_string(), "pkt . hdr");
    let element = Operand::LValue(LValue::Array(id("arr"), Box::new(literal(3))));
    assert_eq!(element.get_string(), "arr [ 3 ] ");
}

#[test]
fn operand_is_scalar_only_for_a_bare_variable() {
    assert!(scalar("x").is_scalar());
    assert!(!literal(1).is_scalar());
    assert!(!Operand::LValue(LValue::Field(id("p"), id("f"))).is_scalar());
    assert!(!Operand::LValue(LValue::Array(id("a"), Box::new(literal(0)))).is_scalar());
}

#[test]
fn operand_is_val_only_for_a_literal() {
    assert!(literal(1).is_val());
    assert!(literal(0).is_val());
    assert!(!scalar("x").is_val());
    assert!(!Operand::LValue(LValue::Field(id("p"), id("f"))).is_val());
    assert!(!Operand::LValue(LValue::Array(id("a"), Box::new(literal(0)))).is_val());
}

#[test]
fn operand_is_never_both_scalar_and_literal() {
    let operands = [
        scalar("x"),
        literal(1),
        Operand::LValue(LValue::Field(id("p"), id("f"))),
        Operand::LValue(LValue::Array(id("a"), Box::new(scalar("i")))),
    ];
    for operand in operands.iter() {
        assert!(!(operand.is_scalar() && operand.is_val()));
        if operand.is_val() {
            assert_eq!(operand.get_val(), operand.get_string());
        }
        if operand.is_scalar() {
            assert_eq!(operand.get_id(), operand.get_string());
        }
    }
}

#[test]
fn operand_accessors_after_the_check() {
    let variable = scalar("speed");
    assert!(variable.is_scalar());
    assert_eq!(variable.get_id(), "speed");
    let number = literal(250);
    assert!(number.is_val());
    assert_eq!(number.get_val(), "250");
}

#[test]
fn empty_program_has_no_symbols() {
    let symbols = SymbolTablePass::collect(&empty_prog());
    assert_eq!(symbols.len(), 0);
    assert!(symbols.is_empty());
    assert!(!symbols.contains("x"));
}

#[test]
fn statement_contributes_its_two_names() {
    let mut symbols = SymbolTablePass::collect(&empty_prog());
    SymbolTablePass::visit_statement(&y_is_x_plus_1(), &mut symbols);
    assert_eq!(symbols.len(), 2);
    assert!(symbols.contains("y"));
    assert!(symbols.contains("x"));
    assert!(!symbols.contains("1"));
}

#[test]
fn snippet_with_one_block_and_one_statement() {
    let block = IfBlock {
        id: 0,
        condtype: 1,
        condition: Condition { expr: Expr { op1: literal(1), expr_right: ExprRight::Empty() } },
        statements: Statements { stmt_vector: vec![y_is_x_plus_1()] },
    };
    let snippet = Snippet {
        snippet_id: id("blink"),
        device_id: id("led0"),
        variable_decls: VariableDecls { decl_vector: vec![] },
        ifblocks: IfBlocks { ifblock_vector: vec![block] },
    };
    let mut prog = empty_prog();
    prog.snippets.snippet_vector.push(snippet);
    let symbols = SymbolTablePass::collect(&prog);
    assert_eq!(symbols.len(), 4);
    for name in ["blink", "led0", "y", "x"] {
        assert!(symbols.contains(name), "{} is missing", name);
    }
}

#[test]
fn symbols_of_the_sample_program() {
    let symbols = SymbolTablePass::collect(&sample_prog(32));
    let mut distinct = sample_identifiers();
    distinct.sort();
    distinct.dedup();
    assert_eq!(symbols.len(), distinct.len());
    assert_eq!(symbols.len(), 17);
    assert!(symbols.len() <= sample_identifiers().len());
    for name in distinct {
        assert!(symbols.contains(name), "{} is missing", name);
    }
    assert!(!symbols.contains("0"));
    assert!(!symbols.contains("missing"));
}

#[test]
fn symbols_are_the_same_on_every_run() {
    let prog = sample_prog(32);
    let first = SymbolTablePass::collect(&prog);
    let second = SymbolTablePass::collect(&prog);
    assert_eq!(first.len(), second.len());
    for name in sample_identifiers() {
        assert!(first.contains(name));
        assert!(second.contains(name));
    }
    let again = SymbolTablePass::collect(&sample_prog(32));
    assert_eq!(first.len(), again.len());
}

#[test]
fn a_pass_keeps_what_the_collector_held() {
    let mut symbols = SymbolTablePass::collect(&sample_prog(32));
    let before = symbols.len();
    SymbolTablePass::visit_lvalue(&LValue::Field(id("fresh"), id("hdr")), &mut symbols);
    assert_eq!(symbols.len(), before + 1);
    assert!(symbols.contains("fresh"));
    assert!(symbols.contains("total"));
}

#[test]
fn every_identifier_is_visited_once_in_declaration_order() {
    let mut seen: Vec<String> = Vec::new();
    Recorder::visit_prog(&sample_prog(32), &mut seen);
    assert_eq!(seen, sample_identifiers());
}

#[test]
fn each_part_is_visited_in_declaration_order() {
    let prog = sample_prog(32);
    let mut seen: Vec<String> = Vec::new();
    Recorder::visit_globals(&prog.globals, &mut seen);
    assert_eq!(seen, vec!["total"]);
    seen.clear();
    Recorder::visit_packets(&prog.packets, &mut seen);
    assert_eq!(seen, vec!["reading", "hdr", "temp"]);
    seen.clear();
    Recorder::visit_connections(&prog.connections, &mut seen);
    assert_eq!(seen, vec!["sense", "store", "out", "inp", "y", "z"]);
    seen.clear();
    Recorder::visit_snippet(&prog.snippets.snippet_vector[1], &mut seen);
    assert_eq!(seen, vec!["store", "node_b"]);
}

#[test]
fn nested_index_is_walked_down_to_its_leaves() {
    let deep = LValue::Array(
        id("a"),
        Box::new(Operand::LValue(LValue::Array(
            id("b"),
            Box::new(Operand::LValue(LValue::Field(id("c"), id("d")))),
        ))),
    );
    let mut seen: Vec<String> = Vec::new();
    Recorder::visit_lvalue(&deep, &mut seen);
    assert_eq!(seen, vec!["a", "b", "c", "d"]);
    let mut counts = (0, 0, 0, 0);
    let with_literal = LValue::Array(
        id("a"),
        Box::new(Operand::LValue(LValue::Array(id("b"), Box::new(literal(3))))),
    );
    LeafCounter::visit_lvalue(&with_literal, &mut counts);
    assert_eq!(counts, (2, 1, 0, 0));
}

#[test]
fn every_leaf_is_reached() {
    let mut counts = (0, 0, 0, 0);
    LeafCounter::visit_prog(&sample_prog(32), &mut counts);
    assert_eq!(counts.0, sample_identifiers().len() as u64);
    assert_eq!(counts.1, 6);
    assert_eq!(counts.2, 4);
    assert_eq!(counts.3, 2);
}

#[test]
fn an_overridden_visit_replaces_the_walk_below_it() {
    let prog = sample_prog(32);
    let block = &prog.snippets.snippet_vector[0].ifblocks.ifblock_vector[0];
    let mut seen: Vec<String> = Vec::new();
    StatementCounter::visit_ifblock(block, &mut seen);
    assert_eq!(seen, vec!["pkt", "hdr", "y", "arr [ idx [ k ]  ] ", "out"]);
}

#[test]
fn a_pass_with_no_override_changes_nothing() {
    struct Idle;
    impl TreeFold<u64> for Idle {}
    let mut collector: u64 = 17;
    Idle::visit_prog(&sample_prog(32), &mut collector);
    assert_eq!(collector, 17);
}

#[test]
fn equal_trees_compare_equal() {
    assert!(sample_prog(32) == sample_prog(32));
    assert!(empty_prog() == empty_prog());
    assert_eq!(sample_prog(8), sample_prog(8));
    assert!(y_is_x_plus_1() == y_is_x_plus_1());
}

#[test]
fn names_are_compared_by_their_characters() {
    let owned = String::from("count");
    let rebuilt: String = ['c', 'o', 'u', 'n', 't'].iter().collect();
    assert!(Identifier { id_name: &owned } == Identifier { id_name: &rebuilt });
    assert!(id("count") != id("counts"));
    assert!(id("count") != id("couns"));
    assert!(id("") == id(""));
    assert!(id("é") == id("é"));
    assert!(id("é") != id("e"));
}

#[test]
fn one_different_leaf_makes_trees_unequal() {
    assert!(sample_prog(32) != sample_prog(16));
    assert_ne!(sample_prog(32), empty_prog());

    let mut renamed = sample_prog(32);
    renamed.connections.connection_vector[0].variable_pairs[1].to_var = id("w");
    assert!(renamed != sample_prog(32));

    let mut other_value = sample_prog(32);
    other_value.globals.global_vector[0].initial_values[1] = Value { value: 8 };
    assert!(other_value != sample_prog(32));

    let mut other_qualifier = sample_prog(32);
    other_qualifier.globals.global_vector[0].var_type.type_qualifier = TypeQualifier::Const;
    assert!(other_qualifier != sample_prog(32));

    let mut other_block = sample_prog(32);
    other_block.snippets.snippet_vector[0].ifblocks.ifblock_vector[0].condtype = 1;
    assert!(other_block != sample_prog(32));

    let mut shorter = sample_prog(32);
    shorter.packets.packet_vector[0].packet_fields.field_vector.pop();
    assert!(shorter != sample_prog(32));
}

#[test]
fn statements_differ_by_operator_operand_and_shape() {
    let base = y_is_x_plus_1();
    let mut minus = y_is_x_plus_1();
    minus.expr.expr_right = ExprRight::BinOp(BinOpType::Minus, literal(1));
    assert!(base != minus);
    let mut two = y_is_x_plus_1();
    two.expr.expr_right = ExprRight::BinOp(BinOpType::Plus, literal(2));
    assert!(base != two);
    let mut bare = y_is_x_plus_1();
    bare.expr.expr_right = ExprRight::Empty();
    assert!(base != bare);
    let mut cond = y_is_x_plus_1();
    cond.expr.expr_right = ExprRight::Cond(literal(1), literal(1));
    assert!(base != cond);
    let mut field = y_is_x_plus_1();
    field.lvalue = LValue::Field(id("y"), id("y"));
    assert!(base != field);
}

#[test]
fn lvalues_and_operands_compare_by_shape_and_content() {
    let a = LValue::Array(id("arr"), Box::new(literal(3)));
    let b = LValue::Array(id("arr"), Box::new(literal(3)));
    let c = LValue::Array(id("arr"), Box::new(literal(4)));
    let d = LValue::Array(id("arr"), Box::new(scalar("i")));
    assert!(a == b);
    assert!(a != c);
    assert!(a != d);
    assert!(LValue::Scalar(id("arr")) != a);
    assert!(LValue::Field(id("p"), id("f")) == LValue::Field(id("p"), id("f")));
    assert!(LValue::Field(id("p"), id("f")) != LValue::Field(id("p"), id("g")));
    assert!(scalar("x") == scalar("x"));
    assert!(scalar("x") != literal(0));
    assert!(literal(0) == literal(0));
    assert!(literal(0) != literal(1));
}

#[test]
fn plain_nodes_compare_by_their_fields() {
    assert_eq!(TypeQualifier::Input, TypeQualifier::Input);
    assert_ne!(TypeQualifier::Input, TypeQualifier::Output);
    assert_eq!(BinOpType::LTEQOp, BinOpType::LTEQOp);
    assert_ne!(BinOpType::LessThan, BinOpType::GreaterThan);
    assert_eq!(BitArray { bit_width: 8, var_size: 1 }, BitArray { bit_width: 8, var_size: 1 });
    assert_ne!(BitArray { bit_width: 8, var_size: 1 }, BitArray { bit_width: 16, var_size: 1 });
    assert_ne!(bits(8, 1, TypeQualifier::Input), bits(8, 2, TypeQualifier::Input));
    let packet = VarType { var_info: VarInfo::Packet(id("p")), type_qualifier: TypeQualifier::Input };
    assert_ne!(packet, bits(8, 1, TypeQualifier::Input));
}

#[test]
fn nodes_can_be_formatted_for_debugging() {
    let text = format!("{:?}", y_is_x_plus_1());
    assert!(text.contains("Scalar"));
    assert!(text.contains("Plus"));
    assert!(text.contains("\"y\""));
}

#[test]
fn same_text_compares_characters() {
    assert!(same_text("", ""));
    assert!(same_text("abc", "abc"));
    assert!(!same_text("abc", "abd"));
    assert!(!same_text("abc", "ab"));
    assert!(!same_text("", "a"));
    assert!(same_text("naïve", "naïve"));
    assert!(!same_text("naïve", "naive"));
}

#[test]
fn operand_eq_and_lvalue_eq_agree_with_equality() {
    let a = LValue::Array(id("arr"), Box::new(scalar("i")));
    let b = LValue::Array(id("arr"), Box::new(scalar("i")));
    let c = LValue::Array(id("arr"), Box::new(scalar("j")));
    assert!(lvalue_eq(&a, &b));
    assert!(!lvalue_eq(&a, &c));
    assert_eq!(lvalue_eq(&a, &c), a == c);
    assert!(operand_eq(&literal(7), &literal(7)));
    assert!(!operand_eq(&literal(7), &scalar("seven")));
    assert!(operand_eq(&Operand::LValue(a), &Operand::LValue(b)));
}
