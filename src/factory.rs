use vstd::prelude::*;

use crate::data_value::DataValue;
use crate::error::DataError;
use crate::function::{fresh, Function, TypeNames};
use crate::operator::{
    DataValueAggregateOperator, DataValueArithmeticOperator, DataValueComparisonOperator,
    DataValueLogicOperator,
};

verus! {

/// What a registered name builds.
#[derive(Clone, Copy, Debug, PartialEq, Eq, Structural)]
pub enum FunctionKind {
    Arithmetic(DataValueArithmeticOperator),
    Comparison(DataValueComparisonOperator),
    Logic(DataValueLogicOperator),
    Aggregate(DataValueAggregateOperator),
    Average,
    ToTypeName,
    Example,
}

impl FunctionKind {
    /// The number of arguments the function takes.
    pub open spec fn arity_spec(self) -> nat {
        match self {
            FunctionKind::Arithmetic(_) | FunctionKind::Comparison(_) | FunctionKind::Logic(_) => 2,
            FunctionKind::Aggregate(_) | FunctionKind::Average | FunctionKind::ToTypeName => 1,
            FunctionKind::Example => 0,
        }
    }

    pub open spec fn name_spec(self) -> Seq<char> {
        match self {
            FunctionKind::Arithmetic(op) => op.name_spec(),
            FunctionKind::Comparison(op) => op.name_spec(),
            FunctionKind::Logic(op) => op.name_spec(),
            FunctionKind::Aggregate(op) => op.name_spec(),
            FunctionKind::Average => "avg"@,
            FunctionKind::ToTypeName => "toTypeName"@,
            FunctionKind::Example => "example"@,
        }
    }

    pub fn arity(&self) -> (r: usize)
        ensures
            r == self.arity_spec(),
    {
        match self {
            FunctionKind::Arithmetic(_) | FunctionKind::Comparison(_) | FunctionKind::Logic(_) => 2,
            FunctionKind::Aggregate(_) | FunctionKind::Average | FunctionKind::ToTypeName => 1,
            FunctionKind::Example => 0,
        }
    }

    pub fn name(&self) -> (r: String)
        ensures
            r@ == self.name_spec(),
    {
        match self {
            FunctionKind::Arithmetic(op) => op.name(),
            FunctionKind::Comparison(op) => op.name(),
            FunctionKind::Logic(op) => op.name(),
            FunctionKind::Aggregate(op) => op.name(),
            FunctionKind::Average => String::from_str("avg"),
            FunctionKind::ToTypeName => String::from_str("toTypeName"),
            FunctionKind::Example => String::from_str("example"),
        }
    }
}

/// The tree a kind builds from arguments of the right number; each argument
/// is a fresh copy, a new aggregate starts at depth 0 with a null state, and
/// a `toTypeName` node gets `names` as its table of type names.
pub open spec fn build_spec(kind: FunctionKind, args: Seq<Function>, names: TypeNames) -> Function {
    match kind {
        FunctionKind::Arithmetic(op) => Function::Arithmetic {
            arith_op: op,
            left: Box::new(fresh(args[0])),
            right: Box::new(fresh(args[1])),
        },
        FunctionKind::Comparison(op) => Function::Comparison {
            cmp_op: op,
            left: Box::new(fresh(args[0])),
            right: Box::new(fresh(args[1])),
        },
        FunctionKind::Logic(op) => Function::Logic {
            logic_op: op,
            left: Box::new(fresh(args[0])),
            right: Box::new(fresh(args[1])),
        },
        FunctionKind::Aggregate(op) => Function::Aggregate {
            agg_op: op,
            arg: Box::new(fresh(args[0])),
            depth: 0,
            state: DataValue::Null,
        },
        FunctionKind::Average => Function::Average {
            arg: Box::new(fresh(args[0])),
            depth: 0,
            sum: DataValue::Null,
            count: DataValue::Null,
        },
        FunctionKind::ToTypeName => Function::ToTypeName { arg: Box::new(fresh(args[0])), names },
        FunctionKind::Example => Function::Example,
    }
}

/// `f` is what building `kind` from `args` gives: the tree of `build_spec`,
/// where a `toTypeName` node holds the full table of type names.
pub open spec fn built(kind: FunctionKind, args: Seq<Function>, f: Function) -> bool {
    match f {
        Function::ToTypeName { names, .. } if kind is ToTypeName => names.wf() && f == build_spec(
            kind,
            args,
            names,
        ),
        _ => !(kind is ToTypeName) && forall|names: TypeNames| f == build_spec(kind, args, names),
    }
}

/// The error for a call with the wrong number of arguments.
pub open spec fn arity_error(e: DataError, function: Seq<char>, expected: nat, actual: nat) -> bool {
    match e {
        DataError::ArgumentCount { function: f, expected: x, actual: a } => f@ == function && x
            == expected && a == actual,
        _ => false,
    }
}

/// What building `kind` from `args` gives: the tree when the number of
/// arguments is right, else an arity error naming the function.
pub open spec fn construct_ok(kind: FunctionKind, args: Seq<Function>, r: Result<Function, DataError>) -> bool {
    if args.len() == kind.arity_spec() {
        r is Ok && built(kind, args, r->Ok_0)
    } else {
        r is Err && arity_error(r->Err_0, kind.name_spec(), kind.arity_spec(), args.len())
    }
}

/// Builds the function of `kind` over `args`.
pub fn construct(kind: FunctionKind, args: &[Function]) -> (r: Result<Function, DataError>)
    ensures
        construct_ok(kind, args@, r),
{
    let n = kind.arity();
    if args.len() != n {
        return Err(DataError::ArgumentCount { function: kind.name(), expected: n, actual: args.len() });
    }
    let f = match kind {
        FunctionKind::Arithmetic(op) => Function::Arithmetic {
            arith_op: op,
            left: Box::new(args[0].clone()),
            right: Box::new(args[1].clone()),
        },
        FunctionKind::Comparison(op) => Function::Comparison {
            cmp_op: op,
            left: Box::new(args[0].clone()),
            right: Box::new(args[1].clone()),
        },
        FunctionKind::Logic(op) => Function::Logic {
            logic_op: op,
            left: Box::new(args[0].clone()),
            right: Box::new(args[1].clone()),
        },
        FunctionKind::Aggregate(op) => Function::Aggregate {
            agg_op: op,
            arg: Box::new(args[0].clone()),
            depth: 0,
            state: DataValue::Null,
        },
        FunctionKind::Average => Function::Average {
            arg: Box::new(args[0].clone()),
            depth: 0,
            sum: DataValue::Null,
            count: DataValue::Null,
        },
        FunctionKind::ToTypeName => Function::ToTypeName {
            arg: Box::new(args[0].clone()),
            names: TypeNames::new(),
        },
        FunctionKind::Example => Function::Example,
    };
    proof {
        if !(kind is ToTypeName) {
            assert forall|names: TypeNames| f == build_spec(kind, args@, names) by {}
        }
    }
    Ok(f)
}

/// A reference to a named column.
pub struct ColumnFunction;

impl ColumnFunction {
    pub fn try_create(name: &str) -> (r: Result<Function, DataError>)
        ensures
            r matches Ok(Function::Column { name: n }) && n@ == name@,
    {
        Ok(Function::Column { name: String::from_str(name) })
    }
}

/// A constant.
pub struct LiteralFunction;

impl LiteralFunction {
    pub fn try_create(value: DataValue) -> (r: Result<Function, DataError>)
        ensures
            r == Ok::<Function, DataError>(Function::Literal { value }),
    {
        Ok(Function::Literal { value })
    }
}

/// A sub-expression under another name.
pub struct AliasFunction;

impl AliasFunction {
    pub fn try_create(alias: &str, func: Function) -> (r: Result<Function, DataError>)
        ensures
            r matches Ok(Function::Alias { alias: a, arg }) && a@ == alias@ && *arg == func,
    {
        Ok(Function::Alias { alias: String::from_str(alias), arg: Box::new(func) })
    }
}

/// Binary arithmetic.
pub struct ArithmeticFunction;

impl ArithmeticFunction {
    pub fn try_create_func(op: DataValueArithmeticOperator, args: &[Function]) -> (r: Result<
        Function,
        DataError,
    >)
        ensures
            construct_ok(FunctionKind::Arithmetic(op), args@, r),
    {
        construct(FunctionKind::Arithmetic(op), args)
    }

    /// Registers the arithmetic functions under their names.
    pub fn register(map: &mut FunctionFactory) -> (r: Result<(), DataError>)
        ensures
            r is Ok,
            final(map)@ == old(map)@.insert("plus"@, FunctionKind::Arithmetic(
                DataValueArithmeticOperator::Plus,
            )).insert("minus"@, FunctionKind::Arithmetic(DataValueArithmeticOperator::Minus)).insert(
                "multiply"@,
                FunctionKind::Arithmetic(DataValueArithmeticOperator::Mul),
            ).insert("divide"@, FunctionKind::Arithmetic(DataValueArithmeticOperator::Div)).insert(
                "modulo"@,
                FunctionKind::Arithmetic(DataValueArithmeticOperator::Modulo),
            ),
    {
        map.insert("plus", FunctionKind::Arithmetic(DataValueArithmeticOperator::Plus));
        map.insert("minus", FunctionKind::Arithmetic(DataValueArithmeticOperator::Minus));
        map.insert("multiply", FunctionKind::Arithmetic(DataValueArithmeticOperator::Mul));
        map.insert("divide", FunctionKind::Arithmetic(DataValueArithmeticOperator::Div));
        map.insert("modulo", FunctionKind::Arithmetic(DataValueArithmeticOperator::Modulo));
        Ok(())
    }
}

/// Row-by-row comparison.
pub struct ComparisonFunction;

impl ComparisonFunction {
    pub fn try_create_func(op: DataValueComparisonOperator, args: &[Function]) -> (r: Result<
        Function,
        DataError,
    >)
        ensures
            construct_ok(FunctionKind::Comparison(op), args@, r),
    {
        construct(FunctionKind::Comparison(op), args)
    }

    /// Registers the comparisons under their symbols.
    pub fn register(map: &mut FunctionFactory) -> (r: Result<(), DataError>)
        ensures
            r is Ok,
            final(map)@ == old(map)@.insert("="@, FunctionKind::Comparison(
                DataValueComparisonOperator::Eq,
            )).insert("<"@, FunctionKind::Comparison(DataValueComparisonOperator::Lt)).insert(
                "<="@,
                FunctionKind::Comparison(DataValueComparisonOperator::LtEq),
            ).insert(">"@, FunctionKind::Comparison(DataValueComparisonOperator::Gt)).insert(
                ">="@,
                FunctionKind::Comparison(DataValueComparisonOperator::GtEq),
            ).insert("!="@, FunctionKind::Comparison(DataValueComparisonOperator::NotEq)),
    {
        map.insert("=", FunctionKind::Comparison(DataValueComparisonOperator::Eq));
        map.insert("<", FunctionKind::Comparison(DataValueComparisonOperator::Lt));
        map.insert("<=", FunctionKind::Comparison(DataValueComparisonOperator::LtEq));
        map.insert(">", FunctionKind::Comparison(DataValueComparisonOperator::Gt));
        map.insert(">=", FunctionKind::Comparison(DataValueComparisonOperator::GtEq));
        map.insert("!=", FunctionKind::Comparison(DataValueComparisonOperator::NotEq));
        Ok(())
    }
}

pub struct ComparisonEqFunction;

impl ComparisonEqFunction {
    pub fn try_create_func(args: &[Function]) -> (r: Result<Function, DataError>)
        ensures
            construct_ok(FunctionKind::Comparison(DataValueComparisonOperator::Eq), args@, r),
    {
        construct(FunctionKind::Comparison(DataValueComparisonOperator::Eq), args)
    }
}

pub struct ComparisonNotEqFunction;

impl ComparisonNotEqFunction {
    pub fn try_create_func(args: &[Function]) -> (r: Result<Function, DataError>)
        ensures
            construct_ok(FunctionKind::Comparison(DataValueComparisonOperator::NotEq), args@, r),
    {
        construct(FunctionKind::Comparison(DataValueComparisonOperator::NotEq), args)
    }
}

pub struct ComparisonLtFunction;

impl ComparisonLtFunction {
    pub fn try_create_func(args: &[Function]) -> (r: Result<Function, DataError>)
        ensures
            construct_ok(FunctionKind::Comparison(DataValueComparisonOperator::Lt), args@, r),
    {
        construct(FunctionKind::Comparison(DataValueComparisonOperator::Lt), args)
    }
}

pub struct ComparisonLtEqFunction;

impl ComparisonLtEqFunction {
    pub fn try_create_func(args: &[Function]) -> (r: Result<Function, DataError>)
        ensures
            construct_ok(FunctionKind::Comparison(DataValueComparisonOperator::LtEq), args@, r),
    {
        construct(FunctionKind::Comparison(DataValueComparisonOperator::LtEq), args)
    }
}

pub struct ComparisonGtFunction;

impl ComparisonGtFunction {
    pub fn try_create_func(args: &[Function]) -> (r: Result<Function, DataError>)
        ensures
            construct_ok(FunctionKind::Comparison(DataValueComparisonOperator::Gt), args@, r),
    {
        construct(FunctionKind::Comparison(DataValueComparisonOperator::Gt), args)
    }
}

pub struct ComparisonGtEqFunction;

impl ComparisonGtEqFunction {
    pub fn try_create_func(args: &[Function]) -> (r: Result<Function, DataError>)
        ensures
            construct_ok(FunctionKind::Comparison(DataValueComparisonOperator::GtEq), args@, r),
    {
        construct(FunctionKind::Comparison(DataValueComparisonOperator::GtEq), args)
    }
}

/// Boolean connectives.
pub struct LogicFunction;

impl LogicFunction {
    /// Registers `and` and `or`.
    pub fn register(map: &mut FunctionFactory) -> (r: Result<(), DataError>)
        ensures
            r is Ok,
            final(map)@ == old(map)@.insert("and"@, FunctionKind::Logic(DataValueLogicOperator::And)).insert(
                "or"@,
                FunctionKind::Logic(DataValueLogicOperator::Or),
            ),
    {
        map.insert("and", FunctionKind::Logic(DataValueLogicOperator::And));
        map.insert("or", FunctionKind::Logic(DataValueLogicOperator::Or));
        Ok(())
    }

    pub fn try_create_func(op: DataValueLogicOperator, args: &[Function]) -> (r: Result<
        Function,
        DataError,
    >)
        ensures
            construct_ok(FunctionKind::Logic(op), args@, r),
    {
        construct(FunctionKind::Logic(op), args)
    }
}

pub struct LogicAndFunction;

impl LogicAndFunction {
    pub fn try_create_func(args: &[Function]) -> (r: Result<Function, DataError>)
        ensures
            construct_ok(FunctionKind::Logic(DataValueLogicOperator::And), args@, r),
    {
        construct(FunctionKind::Logic(DataValueLogicOperator::And), args)
    }
}

pub struct LogicOrFunction;

impl LogicOrFunction {
    pub fn try_create_func(args: &[Function]) -> (r: Result<Function, DataError>)
        ensures
            construct_ok(FunctionKind::Logic(DataValueLogicOperator::Or), args@, r),
    {
        construct(FunctionKind::Logic(DataValueLogicOperator::Or), args)
    }
}

/// The aggregate functions.
pub struct AggregatorFunction;

impl AggregatorFunction {
    /// Registers count, min, max, sum and avg.
    pub fn register(map: &mut FunctionFactory) -> (r: Result<(), DataError>)
        ensures
            r is Ok,
            final(map)@ == old(map)@.insert("count"@, FunctionKind::Aggregate(
                DataValueAggregateOperator::Count,
            )).insert("min"@, FunctionKind::Aggregate(DataValueAggregateOperator::Min)).insert(
                "max"@,
                FunctionKind::Aggregate(DataValueAggregateOperator::Max),
            ).insert("sum"@, FunctionKind::Aggregate(DataValueAggregateOperator::Sum)).insert(
                "avg"@,
                FunctionKind::Average,
            ),
    {
        map.insert("count", FunctionKind::Aggregate(DataValueAggregateOperator::Count));
        map.insert("min", FunctionKind::Aggregate(DataValueAggregateOperator::Min));
        map.insert("max", FunctionKind::Aggregate(DataValueAggregateOperator::Max));
        map.insert("sum", FunctionKind::Aggregate(DataValueAggregateOperator::Sum));
        map.insert("avg", FunctionKind::Average);
        Ok(())
    }
}

pub struct AggregatorCountFunction;

impl AggregatorCountFunction {
    pub fn try_create(args: &[Function]) -> (r: Result<Function, DataError>)
        ensures
            construct_ok(FunctionKind::Aggregate(DataValueAggregateOperator::Count), args@, r),
    {
        construct(FunctionKind::Aggregate(DataValueAggregateOperator::Count), args)
    }
}

pub struct AggregatorMinFunction;

impl AggregatorMinFunction {
    pub fn try_create(args: &[Function]) -> (r: Result<Function, DataError>)
        ensures
            construct_ok(FunctionKind::Aggregate(DataValueAggregateOperator::Min), args@, r),
    {
        construct(FunctionKind::Aggregate(DataValueAggregateOperator::Min), args)
    }
}

pub struct AggregatorMaxFunction;

impl AggregatorMaxFunction {
    pub fn try_create(args: &[Function]) -> (r: Result<Function, DataError>)
        ensures
            construct_ok(FunctionKind::Aggregate(DataValueAggregateOperator::Max), args@, r),
    {
        construct(FunctionKind::Aggregate(DataValueAggregateOperator::Max), args)
    }
}

pub struct AggregatorSumFunction;

impl AggregatorSumFunction {
    pub fn try_create(args: &[Function]) -> (r: Result<Function, DataError>)
        ensures
            construct_ok(FunctionKind::Aggregate(DataValueAggregateOperator::Sum), args@, r),
    {
        construct(FunctionKind::Aggregate(DataValueAggregateOperator::Sum), args)
    }
}

pub struct AggregatorAvgFunction;

impl AggregatorAvgFunction {
    pub fn try_create(args: &[Function]) -> (r: Result<Function, DataError>)
        ensures
            construct_ok(FunctionKind::Average, args@, r),
    {
        construct(FunctionKind::Average, args)
    }
}

/// The name of the argument's type.
pub struct ToTypeNameFunction;

impl ToTypeNameFunction {
    pub fn try_create(args: &[Function]) -> (r: Result<Function, DataError>)
        ensures
            construct_ok(FunctionKind::ToTypeName, args@, r),
    {
        construct(FunctionKind::ToTypeName, args)
    }
}

/// The constant `true`, as an example of a user-defined function.
pub struct UdfExampleFunction;

impl UdfExampleFunction {
    pub fn try_create(args: &[Function]) -> (r: Result<Function, DataError>)
        ensures
            construct_ok(FunctionKind::Example, args@, r),
    {
        construct(FunctionKind::Example, args)
    }
}

/// The user-defined functions.
pub struct UdfFunction;

impl UdfFunction {
    /// Registers `example` and `totypename`.
    pub fn register(map: &mut FunctionFactory) -> (r: Result<(), DataError>)
        ensures
            r is Ok,
            final(map)@ == old(map)@.insert("example"@, FunctionKind::Example).insert(
                "totypename"@,
                FunctionKind::ToTypeName,
            ),
    {
        map.insert("example", FunctionKind::Example);
        map.insert("totypename", FunctionKind::ToTypeName);
        Ok(())
    }
}

/// One name of the registry.
#[derive(Debug)]
pub struct FactoryEntry {
    pub name: String,
    pub kind: FunctionKind,
}

/// The names the registry holds, a later entry overriding an earlier one.
pub open spec fn entries_map(s: Seq<FactoryEntry>) -> Map<Seq<char>, FunctionKind>
    decreases s.len(),
{
    if s.len() == 0 {
        Map::empty()
    } else {
        entries_map(s.drop_last()).insert(s.last().name@, s.last().kind)
    }
}

/// The name-to-constructor table through which expression trees are built.
#[derive(Debug)]
pub struct FunctionFactory {
    pub entries: Vec<FactoryEntry>,
}

impl View for FunctionFactory {
    type V = Map<Seq<char>, FunctionKind>;

    open spec fn view(&self) -> Map<Seq<char>, FunctionKind> {
        entries_map(self.entries@)
    }
}

/// The error for a name the registry does not hold.
pub open spec fn unknown_error(e: DataError, name: Seq<char>) -> bool {
    match e {
        DataError::UnknownFunction { name: n } => n@ == name,
        _ => false,
    }
}

impl FunctionFactory {
    /// An empty registry.
    pub fn new() -> (r: FunctionFactory)
        ensures
            r@ == Map::<Seq<char>, FunctionKind>::empty(),
    {
        FunctionFactory { entries: Vec::new() }
    }

    /// A registry holding every family of functions.
    pub fn create() -> (r: FunctionFactory)
        ensures
            r@ == Map::<Seq<char>, FunctionKind>::empty().insert(
                "plus"@,
                FunctionKind::Arithmetic(DataValueArithmeticOperator::Plus),
            ).insert("minus"@, FunctionKind::Arithmetic(DataValueArithmeticOperator::Minus)).insert(
                "multiply"@,
                FunctionKind::Arithmetic(DataValueArithmeticOperator::Mul),
            ).insert("divide"@, FunctionKind::Arithmetic(DataValueArithmeticOperator::Div)).insert(
                "modulo"@,
                FunctionKind::Arithmetic(DataValueArithmeticOperator::Modulo),
            ).insert("="@, FunctionKind::Comparison(DataValueComparisonOperator::Eq)).insert(
                "<"@,
                FunctionKind::Comparison(DataValueComparisonOperator::Lt),
            ).insert("<="@, FunctionKind::Comparison(DataValueComparisonOperator::LtEq)).insert(
                ">"@,
                FunctionKind::Comparison(DataValueComparisonOperator::Gt),
            ).insert(">="@, FunctionKind::Comparison(DataValueComparisonOperator::GtEq)).insert(
                "!="@,
                FunctionKind::Comparison(DataValueComparisonOperator::NotEq),
            ).insert("and"@, FunctionKind::Logic(DataValueLogicOperator::And)).insert(
                "or"@,
                FunctionKind::Logic(DataValueLogicOperator::Or),
            ).insert("count"@, FunctionKind::Aggregate(DataValueAggregateOperator::Count)).insert(
                "min"@,
                FunctionKind::Aggregate(DataValueAggregateOperator::Min),
            ).insert("max"@, FunctionKind::Aggregate(DataValueAggregateOperator::Max)).insert(
                "sum"@,
                FunctionKind::Aggregate(DataValueAggregateOperator::Sum),
            ).insert("avg"@, FunctionKind::Average).insert("example"@, FunctionKind::Example).insert(
                "totypename"@,
                FunctionKind::ToTypeName,
            ),
    {
        let mut f = FunctionFactory::new();
        let _ = ArithmeticFunction::register(&mut f);
        let _ = ComparisonFunction::register(&mut f);
        let _ = LogicFunction::register(&mut f);
        let _ = AggregatorFunction::register(&mut f);
        let _ = UdfFunction::register(&mut f);
        f
    }

    /// Binds `name` to `kind`, replacing an earlier binding.
    pub fn insert(&mut self, name: &str, kind: FunctionKind)
        ensures
            final(self)@ == old(self)@.insert(name@, kind),
    {
        let ghost before = self.entries@;
        self.entries.push(FactoryEntry { name: String::from_str(name), kind });
        assert(self.entries@.drop_last() =~= before);
    }

    /// What `name` is bound to.
    pub fn lookup(&self, name: &str) -> (r: Option<FunctionKind>)
        ensures
            r == (if self@.contains_key(name@) {
                Some(self@[name@])
            } else {
                None::<FunctionKind>
            }),
    {
        let wanted = String::from_str(name);
        let ghost s = self.entries@;
        let mut i: usize = self.entries.len();
        assert(s.take(s.len() as int) =~= s);
        assert(entries_map(s).union_prefer_right(entries_map_suffix(s, s.len() as int))
            =~= entries_map(s));
        while i > 0
            invariant
                i <= s.len(),
                s == self.entries@,
                wanted@ == name@,
                entries_map(s) == entries_map(s.take(i as int)).union_prefer_right(
                    entries_map_suffix(s, i as int),
                ),
                !entries_map_suffix(s, i as int).contains_key(name@),
            decreases i,
        {
            assert(s.take(i as int).drop_last() =~= s.take(i - 1));
            if self.entries[i - 1].name == wanted {
                proof {
                    lemma_suffix_step(s, i - 1);
                }
                return Some(self.entries[i - 1].kind);
            }
            proof {
                lemma_suffix_step(s, i - 1);
                assert(entries_map(s.take(i as int)) == entries_map(s.take(i - 1)).insert(
                    s[i - 1].name@,
                    s[i - 1].kind,
                ));
                assert(entries_map(s) =~= entries_map(s.take(i - 1)).union_prefer_right(
                    entries_map_suffix(s, i - 1),
                ));
            }
            i = i - 1;
        }
        assert(s.take(0) =~= Seq::<FactoryEntry>::empty());
        None
    }

    /// Builds the function that `name` is bound to over `args`.
    pub fn get(&self, name: &str, args: &[Function]) -> (r: Result<Function, DataError>)
        ensures
            if self@.contains_key(name@) {
                construct_ok(self@[name@], args@, r)
            } else {
                r is Err && unknown_error(r->Err_0, name@)
            },
    {
        match self.lookup(name) {
            Some(kind) => construct(kind, args),
            None => Err(DataError::UnknownFunction { name: String::from_str(name) }),
        }
    }
}

/// The bindings of the entries from position `k` on.
pub open spec fn entries_map_suffix(s: Seq<FactoryEntry>, k: int) -> Map<Seq<char>, FunctionKind>
    decreases s.len() - k,
{
    if k >= s.len() || k < 0 {
        Map::empty()
    } else {
        Map::empty().insert(s[k].name@, s[k].kind).union_prefer_right(entries_map_suffix(s, k + 1))
    }
}

proof fn lemma_suffix_step(s: Seq<FactoryEntry>, k: int)
    requires
        0 <= k < s.len(),
    ensures
        entries_map_suffix(s, k) == Map::empty().insert(s[k].name@, s[k].kind).union_prefer_right(
            entries_map_suffix(s, k + 1),
        ),
{
}

} // verus!
