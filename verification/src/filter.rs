//! Conditions on the rows that an operation works on.

use vstd::prelude::*;
use vstd::string::*;
use crate::key::Key;
use crate::util::{And, Exists, Gt, Gte, Like, Neq, Not, Or, Unchecked};

verus! {

/// Two rendered conditions under an operator. A condition that is absent is left out, and the
/// other one stands alone; two absent ones give none.
pub open spec fn join_spec(
    first: Option<Seq<char>>,
    operator: Seq<char>,
    second: Option<Seq<char>>,
) -> Option<Seq<char>> {
    match (first, second) {
        (Some(a), Some(b)) => Some("("@ + a + operator + b + ")"@),
        (Some(a), None) => Some(a),
        (None, Some(b)) => Some(b),
        (None, None) => None,
    }
}

/// The negation of a rendered condition. The negation of an absent one is absent.
pub open spec fn negate_spec(inner: Option<Seq<char>>) -> Option<Seq<char>> {
    match inner {
        Some(a) => Some("NOT ("@ + a + ")"@),
        None => None,
    }
}

/// A key, an operator and a value, in this order.
pub open spec fn compare_spec(key: Seq<char>, operator: Seq<char>, value: Seq<char>) -> Seq<char> {
    key + operator + value
}

/// The pattern of a `LIKE` comparison, in quotes, with `%` at each end that is open.
pub open spec fn pattern_spec(matches_start: bool, value: Seq<char>, matches_end: bool) -> Seq<
    char,
> {
    "'"@ + (if matches_start {
        "%"@
    } else {
        Seq::empty()
    }) + value + (if matches_end {
        "%"@
    } else {
        Seq::empty()
    }) + "'"@
}

/// What a condition says of one row. The engine's logic has three values: a comparison with
/// a null is neither true nor false.
pub enum Truth {
    /// The condition holds.
    True,
    /// The condition fails.
    False,
    /// The condition compares with a null.
    Unknown,
}

impl Truth {
    /// `AND`: false if either is false, true if both are true.
    pub open spec fn both(self, other: Truth) -> Truth {
        if self is False || other is False {
            Truth::False
        } else if self is True && other is True {
            Truth::True
        } else {
            Truth::Unknown
        }
    }

    /// `OR`: true if either is true, false if both are false.
    pub open spec fn either(self, other: Truth) -> Truth {
        if self is True || other is True {
            Truth::True
        } else if self is False && other is False {
            Truth::False
        } else {
            Truth::Unknown
        }
    }

    /// `NOT`: true for false, false for true.
    pub open spec fn negated(self) -> Truth {
        match self {
            Truth::True => Truth::False,
            Truth::False => Truth::True,
            Truth::Unknown => Truth::Unknown,
        }
    }

    /// Whether a row of which the condition says this is one of the rows that the condition
    /// selects. Only the rows of which it holds are.
    pub open spec fn selects(self) -> bool {
        self is True
    }
}

/// What two conditions under an operator say of a row, `combined` being what the operator
/// makes of the two. A condition that is absent is left out, as in [`join_spec`].
pub open spec fn join_truth(
    first: Option<Seq<char>>,
    first_truth: Truth,
    second: Option<Seq<char>>,
    second_truth: Truth,
    combined: Truth,
) -> Truth {
    match (first, second) {
        (Some(_), Some(_)) => combined,
        (Some(_), None) => first_truth,
        (None, Some(_)) => second_truth,
        (None, None) => Truth::True,
    }
}

fn join(first: Option<String>, operator: &str, second: Option<String>) -> (joined: Option<String>)
    ensures
        joined.deep_view() == join_spec(first.deep_view(), operator@, second.deep_view()),
{
    match (first, second) {
        (Some(a), Some(b)) => {
            let mut joined = String::new();
            joined.append("(");
            joined.append(a.as_str());
            joined.append(operator);
            joined.append(b.as_str());
            joined.append(")");
            assert(joined@ =~= "("@ + a@ + operator@ + b@ + ")"@);
            Some(joined)
        },
        (Some(a), None) => Some(a),
        (None, Some(b)) => Some(b),
        (None, None) => None,
    }
}

fn compare(key: String, operator: &str, value: &str) -> (rendered: String)
    ensures
        rendered@ == compare_spec(key@, operator@, value@),
{
    let mut rendered = key;
    rendered.append(operator);
    rendered.append(value);
    rendered
}

/// A condition that decides which rows an operation works on.
pub trait Filter {
    /// The condition as it stands behind `WHERE`, `data_key` being the document column, or
    /// `None` where it constrains nothing.
    spec fn where_spec(&self, data_key: Seq<char>) -> Option<Seq<char>>;

    /// What the condition says of a row. `row` gives what the engine finds of each comparison
    /// in that row, a comparison being named by its text in the statement; the operators
    /// follow the engine's three-valued logic. A condition that constrains nothing holds.
    spec fn truth(&self, data_key: Seq<char>, row: spec_fn(Seq<char>) -> Truth) -> Truth;

    /// Renders the condition for a statement.
    fn where_(&self, data_key: &str) -> (rendered: Option<String>)
        ensures
            rendered.deep_view() == self.where_spec(data_key@),
    ;

    /// This condition and `second`.
    fn and<B>(self, second: B) -> (both: And<Self, B>) where Self: Sized
        ensures
            both.first == self,
            both.second == second,
    {
        And { first: self, second }
    }

    /// This condition or `second`.
    fn or<B>(self, second: B) -> (either: Or<Self, B>) where Self: Sized
        ensures
            either.first == self,
            either.second == second,
    {
        Or { first: self, second }
    }

    /// Not this condition.
    fn not(self) -> (negated: Not<Self>) where Self: Sized
        ensures
            negated.0 == self,
    {
        Not(self)
    }
}

impl Filter for () {
    open spec fn where_spec(&self, data_key: Seq<char>) -> Option<Seq<char>> {
        None
    }

    open spec fn truth(&self, data_key: Seq<char>, row: spec_fn(Seq<char>) -> Truth) -> Truth {
        Truth::True
    }

    fn where_(&self, data_key: &str) -> (rendered: Option<String>) {
        None
    }
}

impl Filter for Unchecked {
    open spec fn where_spec(&self, data_key: Seq<char>) -> Option<Seq<char>> {
        Some(self.0@)
    }

    open spec fn truth(&self, data_key: Seq<char>, row: spec_fn(Seq<char>) -> Truth) -> Truth {
        row(self.where_spec(data_key)->Some_0)
    }

    fn where_(&self, data_key: &str) -> (rendered: Option<String>) {
        Some(self.0.clone())
    }
}

impl<A: Filter, B: Filter> Filter for And<A, B> {
    open spec fn where_spec(&self, data_key: Seq<char>) -> Option<Seq<char>> {
        join_spec(self.first.where_spec(data_key), " AND "@, self.second.where_spec(data_key))
    }

    open spec fn truth(&self, data_key: Seq<char>, row: spec_fn(Seq<char>) -> Truth) -> Truth {
        join_truth(
            self.first.where_spec(data_key),
            self.first.truth(data_key, row),
            self.second.where_spec(data_key),
            self.second.truth(data_key, row),
            self.first.truth(data_key, row).both(self.second.truth(data_key, row)),
        )
    }

    fn where_(&self, data_key: &str) -> (rendered: Option<String>) {
        join(self.first.where_(data_key), " AND ", self.second.where_(data_key))
    }
}

impl<A: Filter, B: Filter> Filter for Or<A, B> {
    open spec fn where_spec(&self, data_key: Seq<char>) -> Option<Seq<char>> {
        join_spec(self.first.where_spec(data_key), " OR "@, self.second.where_spec(data_key))
    }

    open spec fn truth(&self, data_key: Seq<char>, row: spec_fn(Seq<char>) -> Truth) -> Truth {
        join_truth(
            self.first.where_spec(data_key),
            self.first.truth(data_key, row),
            self.second.where_spec(data_key),
            self.second.truth(data_key, row),
            self.first.truth(data_key, row).either(self.second.truth(data_key, row)),
        )
    }

    fn where_(&self, data_key: &str) -> (rendered: Option<String>) {
        join(self.first.where_(data_key), " OR ", self.second.where_(data_key))
    }
}

impl<A: Filter> Filter for Not<A> {
    open spec fn where_spec(&self, data_key: Seq<char>) -> Option<Seq<char>> {
        negate_spec(self.0.where_spec(data_key))
    }

    open spec fn truth(&self, data_key: Seq<char>, row: spec_fn(Seq<char>) -> Truth) -> Truth {
        match self.0.where_spec(data_key) {
            Some(_) => self.0.truth(data_key, row).negated(),
            None => Truth::True,
        }
    }

    fn where_(&self, data_key: &str) -> (rendered: Option<String>) {
        match self.0.where_(data_key) {
            Some(inner) => {
                let mut rendered = String::new();
                rendered.append("NOT (");
                rendered.append(inner.as_str());
                rendered.append(")");
                assert(rendered@ =~= "NOT ("@ + inner@ + ")"@);
                Some(rendered)
            },
            None => None,
        }
    }
}

impl<K: Key> Filter for crate::util::Eq<K, String> {
    open spec fn where_spec(&self, data_key: Seq<char>) -> Option<Seq<char>> {
        Some(compare_spec(self.variable.key_spec(data_key), " = "@, self.value@))
    }

    open spec fn truth(&self, data_key: Seq<char>, row: spec_fn(Seq<char>) -> Truth) -> Truth {
        row(self.where_spec(data_key)->Some_0)
    }

    fn where_(&self, data_key: &str) -> (rendered: Option<String>) {
        Some(compare(self.variable.key(data_key), " = ", self.value.as_str()))
    }
}

impl<K: Key> Filter for Neq<K, String> {
    open spec fn where_spec(&self, data_key: Seq<char>) -> Option<Seq<char>> {
        Some(compare_spec(self.variable.key_spec(data_key), " != "@, self.value@))
    }

    open spec fn truth(&self, data_key: Seq<char>, row: spec_fn(Seq<char>) -> Truth) -> Truth {
        row(self.where_spec(data_key)->Some_0)
    }

    fn where_(&self, data_key: &str) -> (rendered: Option<String>) {
        Some(compare(self.variable.key(data_key), " != ", self.value.as_str()))
    }
}

impl<K: Key> Filter for Gt<K, String> {
    open spec fn where_spec(&self, data_key: Seq<char>) -> Option<Seq<char>> {
        Some(compare_spec(self.greater.key_spec(data_key), " > "@, self.lesser@))
    }

    open spec fn truth(&self, data_key: Seq<char>, row: spec_fn(Seq<char>) -> Truth) -> Truth {
        row(self.where_spec(data_key)->Some_0)
    }

    fn where_(&self, data_key: &str) -> (rendered: Option<String>) {
        Some(compare(self.greater.key(data_key), " > ", self.lesser.as_str()))
    }
}

impl<K: Key> Filter for Gte<K, String> {
    open spec fn where_spec(&self, data_key: Seq<char>) -> Option<Seq<char>> {
        Some(compare_spec(self.greater.key_spec(data_key), " >= "@, self.lesser@))
    }

    open spec fn truth(&self, data_key: Seq<char>, row: spec_fn(Seq<char>) -> Truth) -> Truth {
        row(self.where_spec(data_key)->Some_0)
    }

    fn where_(&self, data_key: &str) -> (rendered: Option<String>) {
        Some(compare(self.greater.key(data_key), " >= ", self.lesser.as_str()))
    }
}

impl<K: Key> Filter for Gt<String, K> {
    open spec fn where_spec(&self, data_key: Seq<char>) -> Option<Seq<char>> {
        Some(compare_spec(self.lesser.key_spec(data_key), " < "@, self.greater@))
    }

    open spec fn truth(&self, data_key: Seq<char>, row: spec_fn(Seq<char>) -> Truth) -> Truth {
        row(self.where_spec(data_key)->Some_0)
    }

    fn where_(&self, data_key: &str) -> (rendered: Option<String>) {
        Some(compare(self.lesser.key(data_key), " < ", self.greater.as_str()))
    }
}

impl<K: Key> Filter for Gte<String, K> {
    open spec fn where_spec(&self, data_key: Seq<char>) -> Option<Seq<char>> {
        Some(compare_spec(self.lesser.key_spec(data_key), " <= "@, self.greater@))
    }

    open spec fn truth(&self, data_key: Seq<char>, row: spec_fn(Seq<char>) -> Truth) -> Truth {
        row(self.where_spec(data_key)->Some_0)
    }

    fn where_(&self, data_key: &str) -> (rendered: Option<String>) {
        Some(compare(self.lesser.key(data_key), " <= ", self.greater.as_str()))
    }
}

impl<K: Key> Filter for Like<K, String> {
    open spec fn where_spec(&self, data_key: Seq<char>) -> Option<Seq<char>> {
        Some(
            compare_spec(
                self.variable.key_spec(data_key),
                " LIKE "@,
                pattern_spec(self.matches_start, self.value@, self.matches_end),
            ),
        )
    }

    open spec fn truth(&self, data_key: Seq<char>, row: spec_fn(Seq<char>) -> Truth) -> Truth {
        row(self.where_spec(data_key)->Some_0)
    }

    fn where_(&self, data_key: &str) -> (rendered: Option<String>) {
        let mut pattern = String::new();
        pattern.append("'");
        if self.matches_start {
            pattern.append("%");
        }
        pattern.append(self.value.as_str());
        if self.matches_end {
            pattern.append("%");
        }
        pattern.append("'");
        assert(pattern@ =~= pattern_spec(self.matches_start, self.value@, self.matches_end));
        Some(compare(self.variable.key(data_key), " LIKE ", pattern.as_str()))
    }
}

impl<K: Key> Filter for Exists<K> {
    open spec fn where_spec(&self, data_key: Seq<char>) -> Option<Seq<char>> {
        Some(self.0.key_spec(data_key) + " IS NOT NULL"@)
    }

    open spec fn truth(&self, data_key: Seq<char>, row: spec_fn(Seq<char>) -> Truth) -> Truth {
        row(self.where_spec(data_key)->Some_0)
    }

    fn where_(&self, data_key: &str) -> (rendered: Option<String>) {
        let mut rendered = self.0.key(data_key);
        rendered.append(" IS NOT NULL");
        Some(rendered)
    }
}

/// The grouping of `and` does not matter: of every row, `(a and b) and c` says what
/// `a and (b and c)` says, so the two select the same rows. Their texts hold the same
/// conditions in the same order, and differ in where the parentheses stand.
pub proof fn and_associative<A: Filter, B: Filter, C: Filter>(
    a: A,
    b: B,
    c: C,
    data_key: Seq<char>,
    row: spec_fn(Seq<char>) -> Truth,
)
    ensures
        (And { first: And { first: a, second: b }, second: c }).truth(data_key, row) == (And {
            first: a,
            second: And { first: b, second: c },
        }).truth(data_key, row),
        a.where_spec(data_key) is Some && b.where_spec(data_key) is Some && c.where_spec(
            data_key,
        ) is Some ==> (And { first: And { first: a, second: b }, second: c }).where_spec(data_key)
            == Some(
            "("@ + ("("@ + a.where_spec(data_key)->Some_0 + " AND "@ + b.where_spec(
                data_key,
            )->Some_0 + ")"@) + " AND "@ + c.where_spec(data_key)->Some_0 + ")"@,
        ),
        a.where_spec(data_key) is Some && b.where_spec(data_key) is Some && c.where_spec(
            data_key,
        ) is Some ==> (And { first: a, second: And { first: b, second: c } }).where_spec(data_key)
            == Some(
            "("@ + a.where_spec(data_key)->Some_0 + " AND "@ + ("("@ + b.where_spec(
                data_key,
            )->Some_0 + " AND "@ + c.where_spec(data_key)->Some_0 + ")"@) + ")"@,
        ),
        (And { first: And { first: a, second: b }, second: c }).where_spec(data_key) is None
            <==> (And { first: a, second: And { first: b, second: c } }).where_spec(
            data_key,
        ) is None,
{
}

/// The grouping of `or` does not matter either.
pub proof fn or_associative<A: Filter, B: Filter, C: Filter>(
    a: A,
    b: B,
    c: C,
    data_key: Seq<char>,
    row: spec_fn(Seq<char>) -> Truth,
)
    ensures
        (Or { first: Or { first: a, second: b }, second: c }).truth(data_key, row) == (Or {
            first: a,
            second: Or { first: b, second: c },
        }).truth(data_key, row),
{
}

/// Among the rows in which the comparison of `key` with `value` is not unknown, that is those
/// in which the key is not null, `not(eq(key, value))` selects exactly the rows that
/// `eq(key, value)` does not select.
pub proof fn not_eq_complement<K: Key>(
    key: K,
    value: String,
    data_key: Seq<char>,
    row: spec_fn(Seq<char>) -> Truth,
)
    requires
        !((crate::util::Eq { variable: key, value: value }).truth(data_key, row) is Unknown),
    ensures
        (Not(crate::util::Eq { variable: key, value: value })).truth(data_key, row).selects()
            == !(crate::util::Eq { variable: key, value: value }).truth(data_key, row).selects(),
{
}

/// In a row in which the key is null, so that the comparison is unknown, neither
/// `eq(key, value)` nor `not(eq(key, value))` selects the row.
pub proof fn not_eq_leaves_null<K: Key>(
    key: K,
    value: String,
    data_key: Seq<char>,
    row: spec_fn(Seq<char>) -> Truth,
)
    requires
        (crate::util::Eq { variable: key, value: value }).truth(data_key, row) is Unknown,
    ensures
        !(Not(crate::util::Eq { variable: key, value: value })).truth(data_key, row).selects(),
        !(crate::util::Eq { variable: key, value: value }).truth(data_key, row).selects(),
{
}

} // verus!
