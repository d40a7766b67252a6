use zokrates_ast::common::{FlatEmbed, FormatString, Position, SourceMetadata};
use zokrates_ast::field::Field;
use zokrates_ast::typed::ConcreteType;
use zokrates_ast::zir::{
    BooleanExpression, FieldElementExpression, Id, Identifier, Parameter, RuntimeError,
    Signature, SourceIdentifier, Type, UBitwidth, UExpression, UExpressionInner, Variable,
    ZirAssemblyStatement, ZirExpression, ZirExpressionList, ZirFunction, ZirProgram,
    ZirStatement,
};

fn id(name: &'static str) -> Identifier<'static> {
    Identifier::Source(SourceIdentifier::Basic(name))
}

fn fe_var(name: &'static str) -> FieldElementExpression<'static, u128> {
    FieldElementExpression::identifier(id(name))
}

fn fe_num(n: u128) -> FieldElementExpression<'static, u128> {
    FieldElementExpression::Number(n)
}

fn b_var(name: &'static str) -> BooleanExpression<'static, u128> {
    BooleanExpression::identifier(id(name))
}

fn u_var(name: &'static str, b: UBitwidth) -> UExpression<'static, u128> {
    UExpression::identifier(id(name)).annotate(b)
}

fn u_val(v: u128, b: UBitwidth) -> UExpression<'static, u128> {
    UExpressionInner::Value(v).annotate(b)
}

fn bx<E>(e: E) -> Box<E> {
    Box::new(e)
}

fn field_var(name: &'static str) -> Variable<'static> {
    Variable::new(id(name), Type::FieldElement)
}

fn metadata() -> SourceMetadata {
    SourceMetadata {
        file: "main.zok".to_string(),
        position: Position { line: 3, col: 5 },
        message: None,
    }
}

#[test]
fn field_element_decimal() {
    assert_eq!(0u128.to_dec_string(), "0");
    assert_eq!(10u128.to_dec_string(), "10");
    assert_eq!(
        u128::MAX.to_dec_string(),
        "340282366920938463463374607431768211455"
    );
}

#[test]
fn identifier_forms() {
    let mut s = String::new();
    Identifier::Internal("tmp", 42).fmt(&mut s);
    assert_eq!(s, "tmp_42");
    let mut s = String::new();
    Identifier::Source(SourceIdentifier::Element(
        bx(SourceIdentifier::Select(bx(SourceIdentifier::Basic("a")), 2)),
        1,
    ))
    .fmt(&mut s);
    assert_eq!(s, "a~2.1");
}

#[test]
fn type_and_variable_forms() {
    let mut s = String::new();
    Type::Uint(UBitwidth::B32).fmt(&mut s);
    assert_eq!(s, "u32");
    let mut s = String::new();
    Variable::new(id("x"), Type::Boolean).fmt(&mut s);
    assert_eq!(s, "bool x");
    let mut s = String::new();
    Parameter { id: field_var("a"), private: true }.fmt(&mut s);
    assert_eq!(s, "private field a");
}

#[test]
fn field_expression_forms() {
    let a = || fe_var("a");
    let b = || fe_var("b");
    let i = || u_var("i", UBitwidth::B32);
    assert_eq!(FieldElementExpression::Add(bx(a()), bx(b())).to_string(), "(a + b)");
    assert_eq!(FieldElementExpression::Sub(bx(a()), bx(b())).to_string(), "(a - b)");
    assert_eq!(FieldElementExpression::Mult(bx(a()), bx(b())).to_string(), "(a * b)");
    assert_eq!(FieldElementExpression::Div(bx(a()), bx(b())).to_string(), "(a / b)");
    assert_eq!(FieldElementExpression::Pow(bx(a()), bx(i())).to_string(), "a**i");
    assert_eq!(FieldElementExpression::And(bx(a()), bx(b())).to_string(), "(a & b)");
    assert_eq!(FieldElementExpression::Or(bx(a()), bx(b())).to_string(), "(a | b)");
    assert_eq!(FieldElementExpression::Xor(bx(a()), bx(b())).to_string(), "(a ^ b)");
    assert_eq!(FieldElementExpression::LeftShift(bx(a()), bx(i())).to_string(), "(a << i)");
    assert_eq!(FieldElementExpression::RightShift(bx(a()), bx(i())).to_string(), "(a >> i)");
    assert_eq!(fe_num(12345).to_string(), "12345");
}

#[test]
fn uint_expression_forms() {
    let x = || u_var("x", UBitwidth::B8);
    let y = || u_var("y", UBitwidth::B8);
    let w = UBitwidth::B8;
    assert_eq!(UExpressionInner::Add(bx(x()), bx(y())).annotate(w).to_string(), "(x + y)");
    assert_eq!(UExpressionInner::Sub(bx(x()), bx(y())).annotate(w).to_string(), "(x - y)");
    assert_eq!(UExpressionInner::Mult(bx(x()), bx(y())).annotate(w).to_string(), "(x * y)");
    // a quotient is printed with `*`
    assert_eq!(UExpressionInner::Div(bx(x()), bx(y())).annotate(w).to_string(), "(x * y)");
    assert_eq!(UExpressionInner::Rem(bx(x()), bx(y())).annotate(w).to_string(), "(x % y)");
    assert_eq!(UExpressionInner::Xor(bx(x()), bx(y())).annotate(w).to_string(), "(x ^ y)");
    assert_eq!(UExpressionInner::And(bx(x()), bx(y())).annotate(w).to_string(), "(x & y)");
    assert_eq!(UExpressionInner::Or(bx(x()), bx(y())).annotate(w).to_string(), "(x | y)");
    assert_eq!(UExpressionInner::LeftShift(bx(x()), 3).annotate(w).to_string(), "(x << 3)");
    assert_eq!(UExpressionInner::RightShift(bx(x()), 10).annotate(w).to_string(), "(x >> 10)");
    assert_eq!(UExpressionInner::Not(bx(x())).annotate(w).to_string(), "!x");
    assert_eq!(u_val(255, w).to_string(), "255");
}

#[test]
fn boolean_expression_forms() {
    let a = || fe_var("a");
    let x = || u_var("x", UBitwidth::B32);
    let p = || b_var("p");
    assert_eq!(BooleanExpression::FieldLt(bx(a()), bx(fe_num(1))).to_string(), "(a < 1)");
    assert_eq!(BooleanExpression::FieldLe(bx(a()), bx(fe_num(1))).to_string(), "(a <= 1)");
    assert_eq!(BooleanExpression::FieldEq(bx(a()), bx(fe_num(1))).to_string(), "(a == 1)");
    assert_eq!(BooleanExpression::UintLt(bx(x()), bx(x())).to_string(), "(x < x)");
    assert_eq!(BooleanExpression::UintLe(bx(x()), bx(x())).to_string(), "(x <= x)");
    assert_eq!(BooleanExpression::UintEq(bx(x()), bx(x())).to_string(), "(x == x)");
    assert_eq!(
        BooleanExpression::BoolEq(bx(p()), bx(BooleanExpression::Value(true))).to_string(),
        "(p == true)"
    );
    assert_eq!(BooleanExpression::Or(bx(p()), bx(p())).to_string(), "(p || p)");
    assert_eq!(BooleanExpression::And(bx(p()), bx(p())).to_string(), "(p && p)");
    assert_eq!(BooleanExpression::Not(bx(p())).to_string(), "!p");
    assert_eq!(BooleanExpression::<u128>::Value(false).to_string(), "false");
}

#[test]
fn runtime_error_forms() {
    assert_eq!(RuntimeError::SelectRangeCheck.to_string(), "Range check on array access");
    assert_eq!(RuntimeError::DivisionByZero.to_string(), "Division by zero");
    assert_eq!(
        RuntimeError::IncompleteDynamicRange.to_string(),
        "Dynamic comparison is incomplete"
    );
    assert_eq!(RuntimeError::SourceAssertion(metadata()).to_string(), "main.zok:3:5");
    let mut m = metadata();
    m.message = Some("too big".to_string());
    assert_eq!(RuntimeError::SourceAssertion(m).to_string(), "main.zok:3:5: \"too big\"");
}

#[test]
fn mock_error_is_a_default_source_assertion() {
    let e = RuntimeError::mock();
    assert_eq!(e, RuntimeError::SourceAssertion(SourceMetadata::default()));
    assert_eq!(e.to_string(), ":0:0");
}

#[test]
fn embed_call_forms() {
    let call: ZirExpressionList<'static, u128> = ZirExpressionList::EmbedCall(
        FlatEmbed::U32ToBits,
        vec![],
        vec![ZirExpression::Uint(u_var("x", UBitwidth::B32))],
    );
    assert_eq!(call.to_string(), "_U32_TO_BITS(x)");
    let call: ZirExpressionList<'static, u128> = ZirExpressionList::EmbedCall(
        FlatEmbed::Unpack,
        vec![254, 3],
        vec![ZirExpression::FieldElement(fe_var("a")), ZirExpression::Boolean(b_var("p"))],
    );
    assert_eq!(call.to_string(), "_UNPACK::<254, 3>(a, p)");
}

#[test]
fn simple_statement_forms() {
    let ret: ZirStatement<'static, u128> = ZirStatement::Return(vec![]);
    assert_eq!(ret.to_string(), "return;");
    let ret: ZirStatement<'static, u128> = ZirStatement::Return(vec![
        ZirExpression::FieldElement(fe_var("a")),
        ZirExpression::Boolean(b_var("p")),
    ]);
    assert_eq!(ret.to_string(), "return a, p;");
    let def: ZirStatement<'static, u128> =
        ZirStatement::Definition(field_var("a"), ZirExpression::FieldElement(fe_num(1)));
    let mut s = String::new();
    def.fmt_indented(&mut s, 2);
    assert_eq!(s, "\t\tfield a = 1;");
    let assertion: ZirStatement<'static, u128> =
        ZirStatement::Assertion(b_var("p"), RuntimeError::SourceAssertion(metadata()));
    assert_eq!(assertion.to_string(), "assert(p, \"main.zok:3:5\");");
    let assertion: ZirStatement<'static, u128> =
        ZirStatement::Assertion(b_var("p"), RuntimeError::DivisionByZero);
    assert_eq!(assertion.to_string(), "assert(p); // Division by zero");
    let multi: ZirStatement<'static, u128> = ZirStatement::MultipleDefinition(
        vec![Variable::new(id("b0"), Type::Boolean), Variable::new(id("b1"), Type::Boolean)],
        ZirExpressionList::EmbedCall(
            FlatEmbed::U8ToBits,
            vec![],
            vec![ZirExpression::Uint(u_var("x", UBitwidth::B8))],
        ),
    );
    assert_eq!(multi.to_string(), "bool b0, bool b1 = _U8_TO_BITS(x);");
    let log: ZirStatement<'static, u128> = ZirStatement::Log(
        FormatString { parts: vec!["a=".to_string(), ", b=".to_string(), "".to_string()] },
        vec![
            (ConcreteType::FieldElement, vec![ZirExpression::FieldElement(fe_var("a"))]),
            (
                ConcreteType::Array(Box::new(ConcreteType::Boolean), 2),
                vec![ZirExpression::Boolean(b_var("p")), ZirExpression::Boolean(b_var("q"))],
            ),
        ],
    );
    assert_eq!(log.to_string(), "log(\"a={}, b={}\"), [a], [p, q]);");
}

#[test]
fn if_else_is_indented() {
    let stmt: ZirStatement<'static, u128> = ZirStatement::IfElse(
        b_var("p"),
        vec![ZirStatement::Definition(field_var("a"), ZirExpression::FieldElement(fe_num(1)))],
        vec![
            ZirStatement::Definition(field_var("a"), ZirExpression::FieldElement(fe_num(2))),
            ZirStatement::Return(vec![]),
        ],
    );
    let mut s = String::new();
    stmt.fmt_indented(&mut s, 1);
    assert_eq!(
        s,
        "\tif p {\n\t\tfield a = 1;\n\t} else {\n\t\tfield a = 2;\n\t\treturn;\n\t}"
    );
    assert_eq!(
        stmt.to_string(),
        "if p {\n\tfield a = 1;\n} else {\n\tfield a = 2;\n\treturn;\n}"
    );
}

#[test]
fn fmt_appends_to_what_is_there() {
    let stmt: ZirStatement<'static, u128> = ZirStatement::Return(vec![]);
    let mut s = String::from("x: ");
    stmt.fmt_indented(&mut s, 1);
    assert_eq!(s, "x: \treturn;");
}

#[test]
fn assembly_forms() {
    let inner = ZirFunction {
        arguments: vec![Parameter { id: field_var("a"), private: false }],
        statements: vec![ZirStatement::Return(vec![ZirExpression::FieldElement(fe_var("a"))])],
        signature: Signature { inputs: vec![Type::FieldElement], outputs: vec![Type::FieldElement] },
    };
    let block: ZirStatement<'static, u128> = ZirStatement::Assembly(vec![
        ZirAssemblyStatement::Assignment(vec![field_var("w")], inner),
        ZirAssemblyStatement::Constraint(fe_var("w"), fe_var("a"), metadata()),
    ]);
    assert_eq!(
        block.to_string(),
        "asm {\n\tfield w <-- (field a) -> (field) {\n\treturn a;\n};\n\tw === a;\n}"
    );
    let c: ZirAssemblyStatement<'static, u128> =
        ZirAssemblyStatement::Constraint(fe_num(1), fe_var("a"), metadata());
    assert_eq!(c.to_string(), "1 === a;");
}

#[test]
fn function_and_program_forms() {
    let main = ZirFunction {
        arguments: vec![
            Parameter { id: field_var("a"), private: true },
            Parameter { id: Variable::new(id("n"), Type::Uint(UBitwidth::B8)), private: false },
        ],
        statements: vec![
            ZirStatement::Assertion(
                BooleanExpression::FieldEq(bx(fe_var("a")), bx(fe_num(1))),
                RuntimeError::mock(),
            ),
            ZirStatement::Return(vec![
                ZirExpression::FieldElement(fe_var("a")),
                ZirExpression::Uint(u_var("n", UBitwidth::B8)),
            ]),
        ],
        signature: Signature {
            inputs: vec![Type::FieldElement, Type::Uint(UBitwidth::B8)],
            outputs: vec![Type::FieldElement, Type::Uint(UBitwidth::B8)],
        },
    };
    let expected =
        "(private field a, u8 n) -> (field, u8) {\n\tassert((a == 1), \":0:0\");\n\treturn a, n;\n}";
    assert_eq!(main.to_string(), expected);
    let program = ZirProgram { main };
    assert_eq!(program.to_string(), expected);
}

#[test]
fn empty_function_form() {
    let f: ZirFunction<'static, u128> = ZirFunction {
        arguments: vec![],
        statements: vec![],
        signature: Signature { inputs: vec![], outputs: vec![] },
    };
    assert_eq!(f.to_string(), "() -> () {\n}");
}

#[test]
fn program_clone_is_equal() {
    let main: ZirFunction<'static, u128> = ZirFunction {
        arguments: vec![Parameter { id: field_var("a"), private: true }],
        statements: vec![
            ZirStatement::IfElse(
                b_var("p"),
                vec![ZirStatement::Log(
                    FormatString { parts: vec!["x".to_string(), "".to_string()] },
                    vec![(ConcreteType::FieldElement, vec![ZirExpression::FieldElement(fe_var("a"))])],
                )],
                vec![ZirStatement::Assembly(vec![ZirAssemblyStatement::Constraint(
                    fe_var("a"),
                    fe_num(0),
                    metadata(),
                )])],
            ),
            ZirStatement::Return(vec![ZirExpression::FieldElement(fe_var("a"))]),
        ],
        signature: Signature { inputs: vec![Type::FieldElement], outputs: vec![Type::FieldElement] },
    };
    let program = ZirProgram { main };
    let copy = program.clone();
    assert_eq!(copy, program);
    assert_eq!(copy.to_string(), program.to_string());
}

#[test]
fn one_level_deeper_adds_a_tab_to_every_line() {
    let stmt: ZirStatement<'static, u128> = ZirStatement::IfElse(
        b_var("p"),
        vec![
            ZirStatement::IfElse(
                b_var("q"),
                vec![ZirStatement::Return(vec![])],
                vec![ZirStatement::Assembly(vec![ZirAssemblyStatement::Constraint(
                    fe_var("a"),
                    fe_num(1),
                    metadata(),
                )])],
            ),
            ZirStatement::Definition(field_var("a"), ZirExpression::FieldElement(fe_num(2))),
        ],
        vec![],
    );
    for depth in 0..4 {
        let mut shallow = String::new();
        stmt.fmt_indented(&mut shallow, depth);
        let mut deep = String::new();
        stmt.fmt_indented(&mut deep, depth + 1);
        assert_eq!(deep, format!("\t{}", shallow.replace('\n', "\n\t")));
    }
}
