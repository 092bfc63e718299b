//! The values a widget exposes to the command line: how text given for a
//! key is read into a value of the key's type, how a value is printed back,
//! and which widget a request is meant for.
use vstd::prelude::*;
use crate::text::{is_whitespace, str_eq, to_chars, trim, trim_end, trim_start, trimmed, string_from_chars};

verus! {

broadcast use vstd::string::group_string_axioms;

/// A value held by a widget for a key, as its controller reports it.
#[derive(Debug)]
pub enum DataType {
    Int(i32),
    String(String),
    Boolean(bool),
    /// The controller has no usable value for the key.
    Panic,
}

/// The type a widget's controller gives for a key.
#[derive(Debug, Clone, Copy, PartialEq, Eq, Structural)]
pub enum ValueKind {
    Int,
    Float,
    String,
    Boolean,
    Panic,
}

// ----------------------------------------------------------------------------
// Reading integers and booleans
// ----------------------------------------------------------------------------

/// The value of a sequence of decimal digits.
pub open spec fn digits_value(s: Seq<char>) -> int
    decreases s.len(),
{
    if s.len() == 0 {
        0
    } else {
        digits_value(s.drop_last()) * 10 + (s.last() as int - '0' as int)
    }
}

/// Every character is an ASCII digit.
pub open spec fn all_digits(s: Seq<char>) -> bool {
    forall|i: int| 0 <= i < s.len() ==> '0' <= #[trigger] s[i] <= '9'
}

/// `i32::from_str`: an optional `+` or `-` followed by at least one digit,
/// whose value fits in an `i32`.
pub open spec fn parse_i32(s: Seq<char>) -> Option<i32> {
    if s.len() == 0 {
        None
    } else {
        let neg = s[0] == '-';
        let body = if s[0] == '-' || s[0] == '+' {
            s.drop_first()
        } else {
            s
        };
        let v = if neg {
            -digits_value(body)
        } else {
            digits_value(body)
        };
        if body.len() == 0 || !all_digits(body) || v < i32::MIN || v > i32::MAX {
            None
        } else {
            Some(v as i32)
        }
    }
}

/// `bool::from_str`: exactly `true` or `false`.
pub open spec fn parse_bool(s: Seq<char>) -> Option<bool> {
    if s == "true"@ {
        Some(true)
    } else if s == "false"@ {
        Some(false)
    } else {
        None
    }
}

proof fn lemma_digits_value_nonneg(s: Seq<char>)
    requires
        all_digits(s),
    ensures
        digits_value(s) >= 0,
    decreases s.len(),
{
    if s.len() > 0 {
        assert(all_digits(s.drop_last())) by {
            assert forall|i: int| 0 <= i < s.drop_last().len() implies '0' <= #[trigger] s.drop_last()[i] <= '9' by {
                assert(s.drop_last()[i] == s[i]);
            }
        }
        lemma_digits_value_nonneg(s.drop_last());
        assert('0' <= s[s.len() - 1] <= '9');
    }
}

proof fn lemma_digits_value_grows(s: Seq<char>, i: int)
    requires
        all_digits(s),
        0 <= i <= s.len(),
    ensures
        digits_value(s.take(i)) <= digits_value(s),
    decreases s.len() - i,
{
    if i < s.len() {
        lemma_digits_value_grows(s, i + 1);
        let t = s.take(i + 1);
        assert(t.drop_last() =~= s.take(i));
        assert(t.last() == s[i]);
        assert(all_digits(s.take(i))) by {
            assert forall|k: int| 0 <= k < s.take(i).len() implies '0' <= #[trigger] s.take(i)[k] <= '9' by {
                assert(s.take(i)[k] == s[k]);
            }
        }
        lemma_digits_value_nonneg(s.take(i));
    } else {
        assert(s.take(i) =~= s);
    }
}

/// Reads text as an `i32` the way `str::parse::<i32>` does.
pub fn parse_i32_exec(s: &Vec<char>) -> (r: Option<i32>)
    ensures
        r == parse_i32(s@),
{
    if s.len() == 0 {
        return None;
    }
    let neg = s[0] == '-';
    let start: usize = if s[0] == '-' || s[0] == '+' {
        1
    } else {
        0
    };
    let ghost body = if s@[0] == '-' || s@[0] == '+' {
        s@.drop_first()
    } else {
        s@
    };
    assert(body =~= s@.subrange(start as int, s@.len() as int));
    if start == s.len() {
        return None;
    }
    let n = s.len();
    let mut acc: i64 = 0;
    let mut i = start;
    while i < n
        invariant
            start <= i <= n == s@.len(),
            n > 0,
            neg == (s@[0] == '-'),
            body == (if s@[0] == '-' || s@[0] == '+' {
                s@.drop_first()
            } else {
                s@
            }),
            body.len() > 0,
            body == s@.subrange(start as int, n as int),
            all_digits(body.take(i - start)),
            acc == digits_value(body.take(i - start)),
            0 <= acc <= 2147483648,
        decreases n - i,
    {
        let c = s[i];
        let ghost prefix = body.take(i - start + 1);
        assert(prefix.drop_last() =~= body.take(i - start));
        assert(prefix.last() == c);
        if !('0' <= c && c <= '9') {
            proof {
                assert(body[i - start] == c);
                assert(!all_digits(body));
            }
            return None;
        }
        let d = (c as u32 - '0' as u32) as i64;
        acc = acc * 10 + d;
        assert(all_digits(prefix)) by {
            assert forall|k: int| 0 <= k < prefix.len() implies '0' <= #[trigger] prefix[k] <= '9' by {
                if k < prefix.len() - 1 {
                    assert(prefix[k] == body.take(i - start)[k]);
                }
            }
        }
        if acc > 2147483648 {
            proof {
                if all_digits(body) {
                    lemma_digits_value_grows(body, i - start + 1);
                    assert(digits_value(body) > 2147483648);
                }
            }
            return None;
        }
        i = i + 1;
    }
    assert(body.take(n - start) =~= body);
    if neg {
        Some((-acc) as i32)
    } else if acc > 2147483647 {
        None
    } else {
        Some(acc as i32)
    }
}

/// Reads text as a boolean the way `str::parse::<bool>` does.
pub fn parse_bool_exec(s: &str) -> (r: Option<bool>)
    ensures
        r == parse_bool(s@),
{
    if str_eq(s, "true") {
        Some(true)
    } else if str_eq(s, "false") {
        Some(false)
    } else {
        None
    }
}

// ----------------------------------------------------------------------------
// Printing integers
// ----------------------------------------------------------------------------

/// The ASCII digit for a number below ten.
pub open spec fn digit_char(d: nat) -> char {
    if d == 0 {
        '0'
    } else if d == 1 {
        '1'
    } else if d == 2 {
        '2'
    } else if d == 3 {
        '3'
    } else if d == 4 {
        '4'
    } else if d == 5 {
        '5'
    } else if d == 6 {
        '6'
    } else if d == 7 {
        '7'
    } else if d == 8 {
        '8'
    } else {
        '9'
    }
}

/// The decimal digits of a natural number.
pub open spec fn nat_digits(n: nat) -> Seq<char>
    decreases n,
{
    if n < 10 {
        seq![digit_char(n)]
    } else {
        nat_digits(n / 10).push(digit_char(n % 10))
    }
}

/// The decimal form of an `i32`, as `i32::to_string` prints it.
pub open spec fn i32_decimal(n: i32) -> Seq<char> {
    if n < 0 {
        seq!['-'] + nat_digits((-n) as nat)
    } else {
        nat_digits(n as nat)
    }
}

fn digit_of(d: u64) -> (c: char)
    requires
        d < 10,
    ensures
        c == digit_char(d as nat),
{
    if d == 0 {
        '0'
    } else if d == 1 {
        '1'
    } else if d == 2 {
        '2'
    } else if d == 3 {
        '3'
    } else if d == 4 {
        '4'
    } else if d == 5 {
        '5'
    } else if d == 6 {
        '6'
    } else if d == 7 {
        '7'
    } else if d == 8 {
        '8'
    } else {
        '9'
    }
}

/// Prints an `i32` in decimal.
pub fn i32_to_string(n: i32) -> (s: String)
    ensures
        s@ == i32_decimal(n),
{
    let orig: u64 = if n < 0 {
        (-(n as i64)) as u64
    } else {
        n as u64
    };
    let mut m: u64 = orig;
    let mut out: Vec<char> = Vec::new();
    while m >= 10
        invariant
            nat_digits(orig as nat) == nat_digits(m as nat) + out@,
        decreases m,
    {
        let c = digit_of(m % 10);
        out.insert(0, c);
        assert(nat_digits(m as nat) == nat_digits((m / 10) as nat).push(c));
        m = m / 10;
    }
    let c = digit_of(m);
    out.insert(0, c);
    assert(nat_digits(orig as nat) =~= out@);
    if n < 0 {
        out.insert(0, '-');
    }
    string_from_chars(&out)
}

// ----------------------------------------------------------------------------
// Requests on values
// ----------------------------------------------------------------------------

/// The widget a request on a value is meant for.
#[derive(Debug)]
pub enum Route {
    /// This widget.
    Local,
    /// Another widget, reached by its bus name.
    Forward(String),
}

/// The bus name of the widget named `layer`.
pub open spec fn bus_name(layer: Seq<char>) -> Seq<char> {
    "org.VimYoung."@ + layer
}

/// Decides whether a request naming `layer` is for the widget named
/// `own_layer`, or is forwarded to the widget of that name.
pub fn route_request(own_layer: &str, layer: &str) -> (r: Route)
    ensures
        match r {
            Route::Local => own_layer@ == layer@,
            Route::Forward(name) => own_layer@ != layer@ && name@ == bus_name(layer@),
        },
{
    if str_eq(own_layer, layer) {
        Route::Local
    } else {
        let mut name = "org.VimYoung.".to_owned();
        name.append(layer);
        Route::Forward(name)
    }
}

/// What happens to a request to set a key to some text.
#[derive(Debug)]
pub enum SetValueDecision {
    /// The key changes to the given value.
    Change(String, DataType),
    /// The key holds a float: the trimmed text is to be read as one.
    ReadFloat(String, String),
    /// The text cannot be read as a value of the key's type ("Value is not
    /// supported").
    NotSupported,
    /// The controller has no usable value for the key ("Error from Panic").
    Failed,
}

/// The plain content of a [`DataType`].
pub enum DataTypeView {
    Int(i32),
    String(Seq<char>),
    Boolean(bool),
    Panic,
}

impl View for DataType {
    type V = DataTypeView;

    open spec fn view(&self) -> DataTypeView {
        match self {
            DataType::Int(i) => DataTypeView::Int(*i),
            DataType::String(s) => DataTypeView::String(s@),
            DataType::Boolean(b) => DataTypeView::Boolean(*b),
            DataType::Panic => DataTypeView::Panic,
        }
    }
}

/// The plain content of a [`SetValueDecision`].
pub enum SetValueView {
    Change(Seq<char>, DataTypeView),
    ReadFloat(Seq<char>, Seq<char>),
    NotSupported,
    Failed,
}

impl View for SetValueDecision {
    type V = SetValueView;

    open spec fn view(&self) -> SetValueView {
        match self {
            SetValueDecision::Change(k, v) => SetValueView::Change(k@, v@),
            SetValueDecision::ReadFloat(k, t) => SetValueView::ReadFloat(k@, t@),
            SetValueDecision::NotSupported => SetValueView::NotSupported,
            SetValueDecision::Failed => SetValueView::Failed,
        }
    }
}

/// The outcome of setting `key` of the given type to `val`: booleans and
/// integers are read from the trimmed text, strings take the text as it is.
pub open spec fn set_value_outcome(key: Seq<char>, kind: ValueKind, val: Seq<char>) -> SetValueView {
    match kind {
        ValueKind::Boolean => match parse_bool(trimmed(val)) {
            Some(b) => SetValueView::Change(key, DataTypeView::Boolean(b)),
            None => SetValueView::NotSupported,
        },
        ValueKind::Int => match parse_i32(trimmed(val)) {
            Some(i) => SetValueView::Change(key, DataTypeView::Int(i)),
            None => SetValueView::NotSupported,
        },
        ValueKind::Float => SetValueView::ReadFloat(key, trimmed(val)),
        ValueKind::String => SetValueView::Change(key, DataTypeView::String(val)),
        ValueKind::Panic => SetValueView::Failed,
    }
}

/// Decides what setting `key` (of the type the controller gives) to the
/// text `val` does.
pub fn set_value_decision(key: &str, kind: ValueKind, val: &str) -> (d: SetValueDecision)
    ensures
        d@ == set_value_outcome(key@, kind, val@),
{
    match kind {
        ValueKind::Boolean => {
            let t = trim(val);
            match parse_bool_exec(t.as_str()) {
                Some(b) => SetValueDecision::Change(key.to_owned(), DataType::Boolean(b)),
                None => SetValueDecision::NotSupported,
            }
        },
        ValueKind::Int => {
            let t = trim(val);
            let cs = to_chars(t.as_str());
            match parse_i32_exec(&cs) {
                Some(i) => SetValueDecision::Change(key.to_owned(), DataType::Int(i)),
                None => SetValueDecision::NotSupported,
            }
        },
        ValueKind::Float => SetValueDecision::ReadFloat(key.to_owned(), trim(val)),
        ValueKind::String => SetValueDecision::Change(key.to_owned(), DataType::String(val.to_owned())),
        ValueKind::Panic => SetValueDecision::Failed,
    }
}

/// The text a widget answers when asked for a value: integers in decimal,
/// booleans as `true` or `false`, strings as they are; `None` for a value
/// the controller cannot give ("Panic value could not be found").
pub open spec fn value_text(v: DataTypeView) -> Option<Seq<char>> {
    match v {
        DataTypeView::Int(i) => Some(i32_decimal(i)),
        DataTypeView::Boolean(b) => Some(if b { "true"@ } else { "false"@ }),
        DataTypeView::String(s) => Some(s),
        DataTypeView::Panic => None,
    }
}

/// Prints a value for the command line.
pub fn find_value_reply(value: &DataType) -> (r: Option<String>)
    ensures
        match r {
            Some(s) => value_text(value@) == Some(s@),
            None => value_text(value@) is None,
        },
{
    match value {
        DataType::Int(i) => Some(i32_to_string(*i)),
        DataType::Boolean(b) => Some(
            if *b {
                "true".to_owned()
            } else {
                "false".to_owned()
            },
        ),
        DataType::String(s) => Some(s.clone()),
        DataType::Panic => None,
    }
}

proof fn lemma_digit_char(d: nat)
    requires
        d < 10,
    ensures
        digit_char(d) as int - '0' as int == d,
        '0' <= digit_char(d) <= '9',
{
}

/// The digits of a number are digits, and read back as the number.
proof fn lemma_nat_digits(n: nat)
    ensures
        all_digits(nat_digits(n)),
        digits_value(nat_digits(n)) == n,
        nat_digits(n).len() > 0,
    decreases n,
{
    if n < 10 {
        lemma_digit_char(n);
        assert(nat_digits(n).drop_last() =~= Seq::<char>::empty());
        assert(nat_digits(n).last() == digit_char(n));
        assert(digits_value(Seq::<char>::empty()) == 0);
        assert(digits_value(nat_digits(n)) == n);
    } else {
        lemma_nat_digits(n / 10);
        lemma_digit_char(n % 10);
        assert(n == (n / 10) * 10 + n % 10);
        let d = nat_digits(n);
        assert(d.drop_last() =~= nat_digits(n / 10));
        assert(d.last() == digit_char(n % 10));
        assert(digits_value(d) == digits_value(nat_digits(n / 10)) * 10 + (n % 10));
        assert(digits_value(nat_digits(n / 10)) == n / 10);
        assert(digits_value(d) == n);
        assert forall|i: int| 0 <= i < d.len() implies '0' <= #[trigger] d[i] <= '9' by {
            if i < d.len() - 1 {
                assert(d[i] == nat_digits(n / 10)[i]);
            }
        }
    }
}

/// A value printed for `look` is read back unchanged by `update`: the
/// decimal form of an integer parses to it.
pub proof fn lemma_int_text_round_trip(n: i32)
    ensures
        parse_i32(i32_decimal(n)) == Some(n),
{
    if n < 0 {
        let m = (-n) as nat;
        lemma_nat_digits(m);
        let t = i32_decimal(n);
        assert(t[0] == '-');
        assert(t.drop_first() =~= nat_digits(m));
    } else {
        lemma_nat_digits(n as nat);
        let t = nat_digits(n as nat);
        assert(t[0] != '-' && t[0] != '+');
    }
}

/// A boolean printed for `look` is read back unchanged by `update`.
pub proof fn lemma_bool_text_round_trip(b: bool)
    ensures
        parse_bool(if b { "true"@ } else { "false"@ }) == Some(b),
{
    reveal_strlit("true");
    reveal_strlit("false");
    assert("false"@.len() != "true"@.len());
}

/// Setting a boolean value: text that reads `true` or `false` (around
/// white space) sets that boolean; any other text is refused.
pub proof fn lemma_boolean_update_sets_spelled_value(key: Seq<char>, val: Seq<char>, b: bool)
    ensures
        trimmed(val) == (if b { "true"@ } else { "false"@ }) ==> set_value_outcome(
            key,
            ValueKind::Boolean,
            val,
        ) == SetValueView::Change(key, DataTypeView::Boolean(b)),
        trimmed(val) != "true"@ && trimmed(val) != "false"@ ==> set_value_outcome(
            key,
            ValueKind::Boolean,
            val,
        ) == SetValueView::NotSupported,
{
    reveal_strlit("true");
    reveal_strlit("false");
    assert("false"@.len() != "true"@.len());
}

/// Setting an integer value: the value printed for an integer sets exactly
/// that integer, and text that does not read as an `i32` is refused.
pub proof fn lemma_integer_update_sets_printed_value(key: Seq<char>, val: Seq<char>, n: i32)
    ensures
        set_value_outcome(key, ValueKind::Int, i32_decimal(n)) == SetValueView::Change(
            key,
            DataTypeView::Int(n),
        ),
        parse_i32(trimmed(val)) is None ==> set_value_outcome(key, ValueKind::Int, val)
            == SetValueView::NotSupported,
{
    lemma_int_text_round_trip(n);
    let t = i32_decimal(n);
    let d = if n < 0 { nat_digits((-n) as nat) } else { nat_digits(n as nat) };
    lemma_nat_digits(if n < 0 { (-n) as nat } else { n as nat });
    assert(d.len() > 0);
    assert('0' <= d[0] <= '9');
    assert('0' <= d.last() <= '9');
    assert(t.last() == d.last()) by {
        if n < 0 {
            assert(t =~= seq!['-'] + d);
        }
    }
    assert(t[0] == '-' || ('0' <= t[0] <= '9')) by {
        if n < 0 {
            assert(t[0] == '-');
        }
    }
    assert(!is_whitespace(t[0]));
    assert(!is_whitespace(t.last()));
    assert(trim_start(t) == t);
    assert(trim_end(t) == t);
}

/// Setting a text value stores the text as given, spaces included; a value
/// the controller cannot hold is a failure.
pub proof fn lemma_text_update_keeps_text(key: Seq<char>, val: Seq<char>)
    ensures
        set_value_outcome(key, ValueKind::String, val) == SetValueView::Change(
            key,
            DataTypeView::String(val),
        ),
        set_value_outcome(key, ValueKind::Panic, val) == SetValueView::Failed,
{
}

} // verus!
