# zokrates_ast

The ZIR intermediate representation of ZoKrates programs, written in Verus.

- `src/zir/mod.rs`: programs, functions, statements and the three kinds of
  expressions (field, boolean, unsigned integer); type queries, constructors,
  the linearity test and the conjunction iterator.
- `src/zir/display.rs`: the printed form of every ZIR value, as spec
  functions, and the writers proved to produce it.
- `src/zir/cloning.rs`: copies of expressions, statements and functions.
- `src/zir/properties.rs`: proved properties that relate the operations.
- `src/zir/indentation.rs`: how a statement's printed form changes with its
  nesting depth.
- `src/zir/{types,identifier,variable,parameter,uint}.rs`, `src/common.rs`,
  `src/typed.rs`: the types, names, variables and metadata ZIR is built from.
- `src/field.rs`: what ZIR needs of a field element (its decimal numeral).
- `src/text.rs`: numerals, indentation and separated lists.
- `app/lib.rs`: serde-enabled copies of the ZIR types, with conversions.
