use vstd::prelude::*;
use crate::text::{push_signed_decimal, signed_decimal};

verus! {

/// A literal compared against a column in a filter. A floating-point number
/// is held as its IEEE-754 binary64 bit pattern; an array or an object is held
/// as its JSON encoding.
#[derive(Debug, Clone, PartialEq)]
pub enum FilterValue {
    Null,
    Bool(bool),
    Integer(i64),
    Real(u64),
    Text(String),
    Structured(Vec<u8>),
}

/// A value bound to a statement parameter, in the engine's own kinds.
#[derive(Debug, Clone, PartialEq)]
pub enum SqlValue {
    Null,
    Integer(i64),
    Real(u64),
    Text(String),
    Blob(Vec<u8>),
}

pub enum FilterValueView {
    Null,
    Bool(bool),
    Integer(i64),
    Real(u64),
    Text(Seq<char>),
    Structured(Seq<u8>),
}

pub enum SqlValueView {
    Null,
    Integer(i64),
    Real(u64),
    Text(Seq<char>),
    Blob(Seq<u8>),
}

impl View for FilterValue {
    type V = FilterValueView;

    open spec fn view(&self) -> FilterValueView {
        match self {
            FilterValue::Null => FilterValueView::Null,
            FilterValue::Bool(b) => FilterValueView::Bool(*b),
            FilterValue::Integer(i) => FilterValueView::Integer(*i),
            FilterValue::Real(r) => FilterValueView::Real(*r),
            FilterValue::Text(s) => FilterValueView::Text(s@),
            FilterValue::Structured(b) => FilterValueView::Structured(b@),
        }
    }
}

impl View for SqlValue {
    type V = SqlValueView;

    open spec fn view(&self) -> SqlValueView {
        match self {
            SqlValue::Null => SqlValueView::Null,
            SqlValue::Integer(i) => SqlValueView::Integer(*i),
            SqlValue::Real(r) => SqlValueView::Real(*r),
            SqlValue::Text(s) => SqlValueView::Text(s@),
            SqlValue::Blob(b) => SqlValueView::Blob(b@),
        }
    }
}

/// How a filter literal is bound: a boolean as the integer 0 or 1, a
/// structured value as a blob of its encoding, every other kind as itself.
pub open spec fn sql_value_of(v: FilterValueView) -> SqlValueView {
    match v {
        FilterValueView::Null => SqlValueView::Null,
        FilterValueView::Bool(b) => SqlValueView::Integer(if b { 1 } else { 0 }),
        FilterValueView::Integer(i) => SqlValueView::Integer(i),
        FilterValueView::Real(r) => SqlValueView::Real(r),
        FilterValueView::Text(s) => SqlValueView::Text(s),
        FilterValueView::Structured(b) => SqlValueView::Blob(b),
    }
}

/// The number of positional placeholders `?` in a condition.
pub open spec fn placeholders(s: Seq<char>) -> nat
    decreases s.len(),
{
    if s.len() == 0 {
        0
    } else {
        placeholders(s.drop_last()) + if s.last() == '?' { 1nat } else { 0nat }
    }
}

pub proof fn lemma_placeholders_concat(a: Seq<char>, b: Seq<char>)
    ensures
        placeholders(a + b) == placeholders(a) + placeholders(b),
    decreases b.len(),
{
    if b.len() == 0 {
        assert(a + b =~= a);
    } else {
        lemma_placeholders_concat(a, b.drop_last());
        assert((a + b).drop_last() =~= a + b.drop_last());
    }
}

/// A condition over record columns, as text with positional placeholders,
/// together with the literals bound to those placeholders, in order.
pub struct LibsqlSearchFilter {
    condition: String,
    params: Vec<FilterValue>,
}

impl LibsqlSearchFilter {
    pub closed spec fn cond(&self) -> Seq<char> {
        self.condition@
    }

    pub closed spec fn params_view(&self) -> Seq<FilterValueView> {
        self.params@.map_values(|v: FilterValue| v@)
    }

    /// The condition holds exactly one placeholder for each parameter.
    pub open spec fn well_formed(&self) -> bool {
        placeholders(self.cond()) == self.params_view().len()
    }

    fn compare(key: String, op: &str, value: FilterValue) -> (r: Self)
        ensures
            r.cond() == key@ + op@,
            r.params_view() == seq![value@],
    {
        let mut condition = key;
        condition.append(op);
        let params = vec![value];
        proof {
            assert(params@.map_values(|v: FilterValue| v@) =~= seq![value@]);
        }
        LibsqlSearchFilter { condition, params }
    }

    /// The column `key` equals `value`.
    pub fn eq(key: String, value: FilterValue) -> (r: Self)
        ensures
            r.cond() == key@ + " = ?"@,
            r.params_view() == seq![value@],
            !key@.contains('?') ==> r.well_formed(),
    {
        let ghost k = key@;
        let r = Self::compare(key, " = ?", value);
        proof { lemma_leaf_well_formed(k, " = ?"@); }
        r
    }

    /// The column `key` is greater than `value`.
    pub fn gt(key: String, value: FilterValue) -> (r: Self)
        ensures
            r.cond() == key@ + " > ?"@,
            r.params_view() == seq![value@],
            !key@.contains('?') ==> r.well_formed(),
    {
        let ghost k = key@;
        let r = Self::compare(key, " > ?", value);
        proof { lemma_leaf_well_formed(k, " > ?"@); }
        r
    }

    /// The column `key` is less than `value`.
    pub fn lt(key: String, value: FilterValue) -> (r: Self)
        ensures
            r.cond() == key@ + " < ?"@,
            r.params_view() == seq![value@],
            !key@.contains('?') ==> r.well_formed(),
    {
        let ghost k = key@;
        let r = Self::compare(key, " < ?", value);
        proof { lemma_leaf_well_formed(k, " < ?"@); }
        r
    }

    fn combine(self, op: &str, rhs: Self) -> (r: Self)
        ensures
            r.cond() == "("@ + self.cond() + op@ + rhs.cond() + ")"@,
            r.params_view() == self.params_view() + rhs.params_view(),
    {
        let mut condition = String::from_str("(");
        condition.append(self.condition.as_str());
        condition.append(op);
        condition.append(rhs.condition.as_str());
        condition.append(")");
        let mut params = self.params;
        let mut more = rhs.params;
        let ghost a = params@;
        let ghost b = more@;
        params.append(&mut more);
        proof {
            assert(params@.map_values(|v: FilterValue| v@) =~= a.map_values(|v: FilterValue| v@)
                + b.map_values(|v: FilterValue| v@));
        }
        LibsqlSearchFilter { condition, params }
    }

    /// Both filters hold. The parameters of `self` come first.
    pub fn and(self, rhs: Self) -> (r: Self)
        ensures
            r.cond() == "("@ + self.cond() + ") AND ("@ + rhs.cond() + ")"@,
            r.params_view() == self.params_view() + rhs.params_view(),
            self.well_formed() && rhs.well_formed() ==> r.well_formed(),
    {
        let ghost (a, b) = (self.cond(), rhs.cond());
        let r = self.combine(") AND (", rhs);
        proof { lemma_pair_well_formed(a, ") AND ("@, b); }
        r
    }

    /// Either filter holds. The parameters of `self` come first.
    pub fn or(self, rhs: Self) -> (r: Self)
        ensures
            r.cond() == "("@ + self.cond() + ") OR ("@ + rhs.cond() + ")"@,
            r.params_view() == self.params_view() + rhs.params_view(),
            self.well_formed() && rhs.well_formed() ==> r.well_formed(),
    {
        let ghost (a, b) = (self.cond(), rhs.cond());
        let r = self.combine(") OR (", rhs);
        proof { lemma_pair_well_formed(a, ") OR ("@, b); }
        r
    }

    /// The filter does not hold. The parameters stay as they were.
    pub fn not(self) -> (r: Self)
        ensures
            r.cond() == "NOT ("@ + self.cond() + ")"@,
            r.params_view() == self.params_view(),
            self.well_formed() ==> r.well_formed(),
    {
        let mut condition = String::from_str("NOT (");
        condition.append(self.condition.as_str());
        condition.append(")");
        proof {
            reveal_strlit("NOT (");
            reveal_strlit(")");
            lemma_placeholders_concat("NOT ("@, self.cond());
            lemma_placeholders_concat("NOT ("@ + self.cond(), ")"@);
            lemma_no_placeholders("NOT ("@);
            lemma_no_placeholders(")"@);
        }
        LibsqlSearchFilter { condition, params: self.params }
    }

    /// The column `key` lies in the closed range from `lo` to `hi`. Both
    /// bounds are written into the condition, as decimal integers.
    pub fn between(key: String, lo: i64, hi: i64) -> (r: Self)
        ensures
            r.cond() == key@ + " between "@ + signed_decimal(lo as int) + " and "@ + signed_decimal(
                hi as int,
            ),
            r.params_view() == Seq::<FilterValueView>::empty(),
    {
        let mut condition = key;
        condition.append(" between ");
        push_signed_decimal(&mut condition, lo);
        condition.append(" and ");
        push_signed_decimal(&mut condition, hi);
        let params: Vec<FilterValue> = Vec::new();
        proof {
            assert(params@.map_values(|v: FilterValue| v@) =~= Seq::<FilterValueView>::empty());
        }
        LibsqlSearchFilter { condition, params }
    }

    fn unary(key: String, op: &str) -> (r: Self)
        ensures
            r.cond() == key@ + op@,
            r.params_view() == Seq::<FilterValueView>::empty(),
    {
        let mut condition = key;
        condition.append(op);
        let params: Vec<FilterValue> = Vec::new();
        proof {
            assert(params@.map_values(|v: FilterValue| v@) =~= Seq::<FilterValueView>::empty());
        }
        LibsqlSearchFilter { condition, params }
    }

    /// The column `key` holds no value.
    pub fn is_null(key: String) -> (r: Self)
        ensures
            r.cond() == key@ + " is null"@,
            r.params_view() == Seq::<FilterValueView>::empty(),
            !key@.contains('?') ==> r.well_formed(),
    {
        let ghost k = key@;
        let r = Self::unary(key, " is null");
        proof {
            reveal_strlit(" is null");
            lemma_placeholders_concat(k, " is null"@);
            if !k.contains('?') {
                lemma_no_placeholders(k);
            }
            lemma_no_placeholders(" is null"@);
        }
        r
    }

    /// The column `key` holds a value.
    pub fn is_not_null(key: String) -> (r: Self)
        ensures
            r.cond() == key@ + " is not null"@,
            r.params_view() == Seq::<FilterValueView>::empty(),
            !key@.contains('?') ==> r.well_formed(),
    {
        let ghost k = key@;
        let r = Self::unary(key, " is not null");
        proof {
            reveal_strlit(" is not null");
            lemma_placeholders_concat(k, " is not null"@);
            if !k.contains('?') {
                lemma_no_placeholders(k);
            }
            lemma_no_placeholders(" is not null"@);
        }
        r
    }

    /// The column `key` matches the glob pattern, which is bound as a parameter.
    pub fn glob(key: String, pattern: &str) -> (r: Self)
        ensures
            r.cond() == key@ + " glob ?"@,
            r.params_view() == seq![FilterValueView::Text(pattern@)],
            !key@.contains('?') ==> r.well_formed(),
    {
        let ghost k = key@;
        let r = Self::compare(key, " glob ?", FilterValue::Text(String::from_str(pattern)));
        proof { lemma_leaf_well_formed(k, " glob ?"@); }
        r
    }

    /// The column `key` matches the like pattern, which is bound as a parameter.
    pub fn like(key: String, pattern: &str) -> (r: Self)
        ensures
            r.cond() == key@ + " like ?"@,
            r.params_view() == seq![FilterValueView::Text(pattern@)],
            !key@.contains('?') ==> r.well_formed(),
    {
        let ghost k = key@;
        let r = Self::compare(key, " like ?", FilterValue::Text(String::from_str(pattern)));
        proof { lemma_leaf_well_formed(k, " like ?"@); }
        r
    }

    /// The condition text.
    pub fn condition(&self) -> (r: &String)
        ensures
            r@ == self.cond(),
    {
        &self.condition
    }

    /// The parameters as the engine binds them, in placeholder order.
    pub fn compile_params(self) -> (r: Vec<SqlValue>)
        ensures
            r@.map_values(|v: SqlValue| v@) == self.params_view().map_values(|v: FilterValueView| sql_value_of(v)),
    {
        let mut out: Vec<SqlValue> = Vec::new();
        let mut i: usize = 0;
        while i < self.params.len()
            invariant
                0 <= i <= self.params@.len(),
                out@.map_values(|v: SqlValue| v@) == self.params_view().take(i as int).map_values(
                    |v: FilterValueView| sql_value_of(v),
                ),
            decreases self.params@.len() - i,
        {
            let v = sql_value(&self.params[i]);
            let ghost prev = out@;
            out.push(v);
            proof {
                assert(self.params_view().take(i + 1) =~= self.params_view().take(i as int).push(
                    self.params@[i as int]@,
                ));
                assert(out@.map_values(|v: SqlValue| v@) =~= prev.map_values(|v: SqlValue| v@).push(v@));
                assert(out@.map_values(|v: SqlValue| v@) =~= self.params_view().take(i + 1).map_values(
                    |v: FilterValueView| sql_value_of(v),
                ));
            }
            i = i + 1;
        }
        proof {
            assert(self.params_view().take(self.params@.len() as int) =~= self.params_view());
        }
        out
    }
}

fn sql_value(v: &FilterValue) -> (r: SqlValue)
    ensures
        r@ == sql_value_of(v@),
{
    match v {
        FilterValue::Null => SqlValue::Null,
        FilterValue::Bool(b) => SqlValue::Integer(if *b { 1 } else { 0 }),
        FilterValue::Integer(i) => SqlValue::Integer(*i),
        FilterValue::Real(r) => SqlValue::Real(*r),
        FilterValue::Text(s) => SqlValue::Text(s.clone()),
        FilterValue::Structured(b) => {
            let c = b.clone();
            proof {
                assert(c@ =~= b@);
            }
            SqlValue::Blob(c)
        },
    }
}

proof fn lemma_no_placeholders(s: Seq<char>)
    requires
        !s.contains('?'),
    ensures
        placeholders(s) == 0,
    decreases s.len(),
{
    if s.len() > 0 {
        assert(!s.drop_last().contains('?')) by {
            if s.drop_last().contains('?') {
                let j = choose|j: int| 0 <= j < s.drop_last().len() && s.drop_last()[j] == '?';
                assert(s[j] == '?');
            }
        }
        lemma_no_placeholders(s.drop_last());
        assert(s[s.len() - 1] != '?');
    }
}

proof fn lemma_leaf_well_formed(key: Seq<char>, op: Seq<char>)
    requires
        op == " = ?"@ || op == " > ?"@ || op == " < ?"@ || op == " glob ?"@ || op == " like ?"@,
    ensures
        !key.contains('?') ==> placeholders(key + op) == 1,
{
    reveal_strlit(" = ?");
    reveal_strlit(" > ?");
    reveal_strlit(" < ?");
    reveal_strlit(" glob ?");
    reveal_strlit(" like ?");
    if !key.contains('?') {
        lemma_no_placeholders(key);
        lemma_placeholders_concat(key, op);
        lemma_placeholders_concat(op.drop_last(), seq![op.last()]);
        assert(op.drop_last() + seq![op.last()] =~= op);
        assert(!op.drop_last().contains('?')) by {
            if op.drop_last().contains('?') {
                let j = choose|j: int| 0 <= j < op.drop_last().len() && op.drop_last()[j] == '?';
                assert(op[j] == '?');
            }
        }
        lemma_no_placeholders(op.drop_last());
        assert(placeholders(seq![op.last()]) == 1) by {
            assert(seq![op.last()].drop_last() =~= Seq::<char>::empty());
        }
    }
}

proof fn lemma_pair_well_formed(a: Seq<char>, op: Seq<char>, b: Seq<char>)
    requires
        op == ") AND ("@ || op == ") OR ("@,
    ensures
        placeholders("("@ + a + op + b + ")"@) == placeholders(a) + placeholders(b),
{
    reveal_strlit(") AND (");
    reveal_strlit(") OR (");
    reveal_strlit("(");
    reveal_strlit(")");
    lemma_no_placeholders("("@);
    lemma_no_placeholders(")"@);
    lemma_no_placeholders(op);
    lemma_placeholders_concat("("@, a);
    lemma_placeholders_concat("("@ + a, op);
    lemma_placeholders_concat("("@ + a + op, b);
    lemma_placeholders_concat("("@ + a + op + b, ")"@);
}

} // verus!
