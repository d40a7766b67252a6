use zokrates_ast::zir::{
    BooleanExpression, Conditional, ConditionalExpression, Constant, Expr, FieldElementExpression,
    Id, Identifier, IdentifierExpression, IntoType, Select, SelectExpression, SourceIdentifier,
    Type, Typed, UBitwidth, UExpression, UExpressionInner, ZirExpression,
};

fn id(name: &'static str) -> Identifier<'static> {
    Identifier::Source(SourceIdentifier::Basic(name))
}

fn fe_var(name: &'static str) -> FieldElementExpression<'static, u128> {
    FieldElementExpression::identifier(id(name))
}

fn fe_num(n: u128) -> FieldElementExpression<'static, u128> {
    FieldElementExpression::Number(n)
}

fn b_var(name: &'static str) -> BooleanExpression<'static, u128> {
    BooleanExpression::identifier(id(name))
}

fn u_var(name: &'static str, b: UBitwidth) -> UExpression<'static, u128> {
    UExpression::identifier(id(name)).annotate(b)
}

fn u_val(v: u128, b: UBitwidth) -> UExpression<'static, u128> {
    UExpressionInner::Value(v).annotate(b)
}

#[test]
fn identifier_expression_new_keeps_the_name() {
    let e: IdentifierExpression<'static, FieldElementExpression<'static, u128>> =
        IdentifierExpression::new(id("a"));
    assert_eq!(e.id, id("a"));
    assert_eq!(e.to_string(), "a");
}

#[test]
fn conditional_expression_new_boxes_its_parts() {
    let c = ConditionalExpression::new(BooleanExpression::Value(true), fe_num(1), fe_num(2));
    assert_eq!(*c.condition, BooleanExpression::Value(true));
    assert_eq!(*c.consequence, fe_num(1));
    assert_eq!(*c.alternative, fe_num(2));
    assert_eq!(FieldElementExpression::Conditional(c).to_string(), "true ? 1 : 2");
}

#[test]
fn select_expression_new_keeps_array_and_index() {
    let s = SelectExpression::new(vec![fe_num(1), fe_num(2)], u_var("i", UBitwidth::B32));
    assert_eq!(s.array, vec![fe_num(1), fe_num(2)]);
    assert_eq!(*s.index, u_var("i", UBitwidth::B32));
    assert_eq!(FieldElementExpression::Select(s).to_string(), "1, 2[i]");
}

#[test]
fn is_linear_cases() {
    assert!(fe_num(3).is_linear());
    assert!(fe_var("a").is_linear());
    let sum = FieldElementExpression::Add(Box::new(fe_var("a")), Box::new(fe_num(1)));
    assert!(sum.is_linear());
    let diff = FieldElementExpression::Sub(Box::new(fe_var("a")), Box::new(fe_var("b")));
    assert!(diff.is_linear());
    let scaled = FieldElementExpression::Mult(Box::new(fe_num(2)), Box::new(fe_var("a")));
    assert!(scaled.is_linear());
    let scaled_right = FieldElementExpression::Mult(Box::new(fe_var("a")), Box::new(fe_num(2)));
    assert!(scaled_right.is_linear());
    let square = FieldElementExpression::Mult(Box::new(fe_var("a")), Box::new(fe_var("a")));
    assert!(!square.is_linear());
    let quotient = FieldElementExpression::Div(Box::new(fe_var("a")), Box::new(fe_num(2)));
    assert!(!quotient.is_linear());
    let nested = FieldElementExpression::Add(
        Box::new(FieldElementExpression::Mult(Box::new(fe_var("a")), Box::new(fe_var("b")))),
        Box::new(fe_num(1)),
    );
    assert!(!nested.is_linear());
    let product_of_sums = FieldElementExpression::Mult(
        Box::new(FieldElementExpression::Add(Box::new(fe_var("a")), Box::new(fe_num(1)))),
        Box::new(fe_num(3)),
    );
    assert!(product_of_sums.is_linear());
}

#[test]
fn constant_field_expression_is_linear() {
    for n in [0u128, 1, 7, u128::MAX] {
        let e = fe_num(n);
        assert!(e.is_constant());
        assert!(e.is_linear());
    }
}

#[test]
fn conjunction_iterator_yields_conjuncts_right_first() {
    let e = BooleanExpression::And(
        Box::new(BooleanExpression::And(Box::new(b_var("a")), Box::new(b_var("b")))),
        Box::new(b_var("c")),
    );
    let mut it = e.into_conjunction_iterator();
    assert_eq!(it.next(), Some(b_var("c")));
    assert_eq!(it.next(), Some(b_var("b")));
    assert_eq!(it.next(), Some(b_var("a")));
    assert_eq!(it.next(), None);
    assert_eq!(it.next(), None);
}

#[test]
fn conjunction_iterator_of_non_conjunction_yields_it() {
    let e = BooleanExpression::Or(Box::new(b_var("a")), Box::new(b_var("b")));
    let mut it = e.into_conjunction_iterator();
    assert_eq!(
        it.next(),
        Some(BooleanExpression::Or(Box::new(b_var("a")), Box::new(b_var("b"))))
    );
    assert_eq!(it.next(), None);
}

#[test]
fn conjunction_iterator_yields_no_conjunction() {
    let e = BooleanExpression::And(
        Box::new(b_var("a")),
        Box::new(BooleanExpression::And(
            Box::new(BooleanExpression::Not(Box::new(b_var("b")))),
            Box::new(BooleanExpression::And(Box::new(b_var("c")), Box::new(b_var("d")))),
        )),
    );
    let mut it = e.into_conjunction_iterator();
    let mut seen = Vec::new();
    while let Some(c) = it.next() {
        assert!(!matches!(c, BooleanExpression::And(..)));
        seen.push(c.to_string());
    }
    assert_eq!(seen, vec!["d", "c", "!b", "a"]);
}

#[test]
fn get_type_of_each_kind() {
    assert_eq!(fe_num(1).get_type(), Type::FieldElement);
    assert_eq!(BooleanExpression::<u128>::Value(true).get_type(), Type::Boolean);
    assert_eq!(u_val(3, UBitwidth::B16).get_type(), Type::Uint(UBitwidth::B16));
    assert_eq!(ZirExpression::from(fe_num(1)).get_type(), Type::FieldElement);
    assert_eq!(ZirExpression::from(b_var("a")).get_type(), Type::Boolean);
    assert_eq!(
        ZirExpression::from(u_var("x", UBitwidth::B64)).get_type(),
        Type::Uint(UBitwidth::B64)
    );
}

#[test]
fn is_constant_of_each_kind() {
    assert!(fe_num(1).is_constant());
    assert!(!fe_var("a").is_constant());
    assert!(BooleanExpression::<u128>::Value(false).is_constant());
    assert!(!b_var("a").is_constant());
    assert!(u_val(3, UBitwidth::B8).is_constant());
    assert!(!u_var("x", UBitwidth::B8).is_constant());
    assert!(ZirExpression::from(fe_num(1)).is_constant());
    assert!(!ZirExpression::from(u_var("x", UBitwidth::B8)).is_constant());
}

#[test]
fn annotation_into_type_is_type() {
    let fe = fe_num(1);
    assert_eq!(fe.ty().into_type(), fe.get_type());
    let b = b_var("a");
    assert_eq!(b.ty().into_type(), b.get_type());
    let u = u_var("x", UBitwidth::B32);
    assert_eq!(*u.ty(), UBitwidth::B32);
    assert_eq!(u.ty().into_type(), u.get_type());
    assert_eq!(UBitwidth::B8.into_type(), Type::Uint(UBitwidth::B8));
    assert_eq!(Type::Boolean.into_type(), Type::Boolean);
}

#[test]
fn inner_of_each_kind() {
    let u = u_val(5, UBitwidth::B8);
    assert_eq!(*u.as_inner(), UExpressionInner::Value(5));
    assert_eq!(u.into_inner(), UExpressionInner::Value(5));
    let fe = fe_var("a");
    assert_eq!(*fe.as_inner(), fe_var("a"));
    assert_eq!(fe.into_inner(), fe_var("a"));
}

#[test]
fn as_inner_mut_changes_the_form_only() {
    let mut u = u_val(5, UBitwidth::B16);
    *u.as_inner_mut() = UExpressionInner::Value(6);
    assert_eq!(u, u_val(6, UBitwidth::B16));
    let mut b = b_var("a");
    *b.as_inner_mut() = BooleanExpression::Value(true);
    assert_eq!(b, BooleanExpression::Value(true));
}

#[test]
fn identifier_of_each_kind() {
    assert!(matches!(
        FieldElementExpression::<u128>::identifier(id("a")),
        FieldElementExpression::Identifier(ref e) if e.id == id("a")
    ));
    assert!(matches!(
        BooleanExpression::<u128>::identifier(id("b")),
        BooleanExpression::Identifier(ref e) if e.id == id("b")
    ));
    assert!(matches!(
        UExpression::<u128>::identifier(id("c")),
        UExpressionInner::Identifier(ref e) if e.id == id("c")
    ));
}

#[test]
fn conditional_of_uint_takes_width_of_consequence() {
    let c = UExpression::conditional(
        b_var("c"),
        u_var("x", UBitwidth::B16),
        u_var("y", UBitwidth::B16),
    );
    assert_eq!(c.bitwidth, UBitwidth::B16);
    assert_eq!(c.get_type(), Type::Uint(UBitwidth::B16));
    assert_eq!(c.to_string(), "c ? x : y");
    let f = FieldElementExpression::conditional(b_var("c"), fe_num(1), fe_var("a"));
    assert_eq!(f.get_type(), Type::FieldElement);
    assert_eq!(f.to_string(), "c ? 1 : a");
    let b = BooleanExpression::conditional(b_var("c"), b_var("d"), BooleanExpression::Value(false));
    assert_eq!(b.to_string(), "c ? d : false");
}

#[test]
fn select_of_uint_takes_width_of_first_element() {
    let s = UExpression::select(
        vec![u_val(1, UBitwidth::B8), u_val(2, UBitwidth::B8)],
        u_var("i", UBitwidth::B32),
    );
    assert_eq!(s.bitwidth, UBitwidth::B8);
    assert_eq!(s.to_string(), "1, 2[i]");
    let f = FieldElementExpression::select(vec![fe_var("a")], u_val(0, UBitwidth::B32));
    assert_eq!(f.to_string(), "a[0]");
    let b = BooleanExpression::select(vec![], u_val(0, UBitwidth::B32));
    assert_eq!(b.to_string(), "[0]");
}

#[test]
fn wrapping_and_unwrapping() {
    let z = ZirExpression::from(fe_var("a"));
    assert_eq!(z, ZirExpression::FieldElement(fe_var("a")));
    assert_eq!(FieldElementExpression::from(z), fe_var("a"));
    let z = ZirExpression::from(b_var("b"));
    assert_eq!(BooleanExpression::from(z), b_var("b"));
    let z = ZirExpression::from(u_var("x", UBitwidth::B32));
    assert_eq!(UExpression::from(z), u_var("x", UBitwidth::B32));
}

#[test]
fn clones_are_equal() {
    let e = FieldElementExpression::Conditional(ConditionalExpression::new(
        BooleanExpression::And(Box::new(b_var("p")), Box::new(BooleanExpression::Value(true))),
        FieldElementExpression::Select(SelectExpression::new(
            vec![fe_num(1), fe_var("a")],
            u_var("i", UBitwidth::B32),
        )),
        FieldElementExpression::Pow(Box::new(fe_var("a")), Box::new(u_val(3, UBitwidth::B32))),
    ));
    let c = e.clone();
    assert_eq!(c, e);
    assert_eq!(c.to_string(), e.to_string());
    let u = UExpression::select(
        vec![u_val(1, UBitwidth::B8), u_var("x", UBitwidth::B8)],
        u_var("i", UBitwidth::B32),
    );
    assert_eq!(u.clone(), u);
    let z = ZirExpression::from(b_var("q"));
    assert_eq!(z.clone(), z);
}

#[test]
fn select_and_conditional_clone_for_any_element_kind() {
    let s = SelectExpression::new(vec![fe_num(4), fe_var("a")], u_var("i", UBitwidth::B32));
    assert_eq!(s.clone(), s);
    let numbers: SelectExpression<'static, u128, u64> =
        SelectExpression::new(vec![1u64, 2, 3], u_val(0, UBitwidth::B32));
    let copy = numbers.clone();
    assert_eq!(copy.array, vec![1u64, 2, 3]);
    assert_eq!(*copy.index, u_val(0, UBitwidth::B32));
    let c: ConditionalExpression<'static, u128, String> =
        ConditionalExpression::new(b_var("p"), "yes".to_string(), "no".to_string());
    let copy = c.clone();
    assert_eq!(copy, c);
}

fn eval(e: &BooleanExpression<'static, u128>, env: &[(&str, bool)]) -> bool {
    match e {
        BooleanExpression::Value(b) => *b,
        BooleanExpression::Identifier(v) => {
            let name = v.to_string();
            env.iter().find(|(n, _)| *n == name).map(|(_, b)| *b).unwrap()
        }
        BooleanExpression::And(l, r) => eval(l, env) && eval(r, env),
        BooleanExpression::Or(l, r) => eval(l, env) || eval(r, env),
        BooleanExpression::Not(x) => !eval(x, env),
        _ => unreachable!(),
    }
}

#[test]
fn conjuncts_are_jointly_equivalent_to_the_expression() {
    let e = BooleanExpression::And(
        Box::new(BooleanExpression::Or(Box::new(b_var("a")), Box::new(b_var("b")))),
        Box::new(BooleanExpression::And(
            Box::new(BooleanExpression::Not(Box::new(b_var("c")))),
            Box::new(BooleanExpression::And(Box::new(b_var("a")), Box::new(BooleanExpression::Value(true)))),
        )),
    );
    for bits in 0..8u8 {
        let env = [("a", bits & 1 != 0), ("b", bits & 2 != 0), ("c", bits & 4 != 0)];
        let mut it = e.clone().into_conjunction_iterator();
        let mut all = true;
        let mut count = 0;
        while let Some(c) = it.next() {
            all = all && eval(&c, &env);
            count += 1;
        }
        assert_eq!(count, 4);
        assert_eq!(eval(&e, &env), all);
    }
}
