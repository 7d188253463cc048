use vstd::prelude::*;

use vstd::string::StringSliceAdditionalSpecFns;

use crate::error::Error;
use crate::value::{MultiValue, Value};

verus! {

/// The decimal digit for `d < 10`.
pub open spec fn digit_char(d: nat) -> char {
    if d == 0 {
        '0'
    } else if d == 1 {
        '1'
    } else if d == 2 {
        '2'
    } else if d == 3 {
        '3'
    } else if d == 4 {
        '4'
    } else if d == 5 {
        '5'
    } else if d == 6 {
        '6'
    } else if d == 7 {
        '7'
    } else if d == 8 {
        '8'
    } else {
        '9'
    }
}

/// `n` written in decimal, without leading zeros.
pub open spec fn decimal(n: nat) -> Seq<char>
    decreases n,
{
    if n < 10 {
        seq![digit_char(n)]
    } else {
        decimal(n / 10).push(digit_char(n % 10))
    }
}

fn digit_text(d: usize) -> (r: &'static str)
    requires
        d < 10,
    ensures
        r@ == seq![digit_char(d as nat)],
{
    proof {
        reveal_strlit("0");
        reveal_strlit("1");
        reveal_strlit("2");
        reveal_strlit("3");
        reveal_strlit("4");
        reveal_strlit("5");
        reveal_strlit("6");
        reveal_strlit("7");
        reveal_strlit("8");
        reveal_strlit("9");
    }
    let r = if d == 0 {
        "0"
    } else if d == 1 {
        "1"
    } else if d == 2 {
        "2"
    } else if d == 3 {
        "3"
    } else if d == 4 {
        "4"
    } else if d == 5 {
        "5"
    } else if d == 6 {
        "6"
    } else if d == 7 {
        "7"
    } else if d == 8 {
        "8"
    } else {
        "9"
    };
    assert(r@ =~= seq![digit_char(d as nat)]);
    r
}

/// `n` written in decimal.
pub fn decimal_text(n: usize) -> (r: String)
    ensures
        r@ == decimal(n as nat),
    decreases n,
{
    if n < 10 {
        digit_text(n).to_string()
    } else {
        let mut r = decimal_text(n / 10);
        r.append(digit_text(n % 10));
        assert(r@ =~= decimal((n / 10) as nat).push(digit_char((n % 10) as nat)));
        r
    }
}

/// Chunk names are handed to the engine as C strings, which end at the
/// first nul byte.
pub open spec fn is_first_nul(bytes: Seq<u8>, i: int) -> bool {
    0 <= i < bytes.len() && bytes[i] == 0 && forall|j: int| 0 <= j < i ==> bytes[j] != 0
}

pub open spec fn has_nul(bytes: Seq<u8>) -> bool {
    exists|i: int| 0 <= i < bytes.len() && bytes[i] == 0
}

/// The error for a name whose first nul byte is at `position`.
pub open spec fn is_bad_name_error(e: Error, position: int) -> bool {
    &&& e matches Error::ToLuaConversionError { from, to, message }
    &&& from@ == "&str"@
    &&& to@ == "string"@
    &&& message matches Some(m) && m@ == "nul byte found in provided data at position: "@
        + decimal(position as nat)
}

/// Checks a chunk name before it is handed to the engine: a name with a
/// nul byte in it cannot be passed on, and the error says where the first
/// one is.
pub fn check_chunk_name(name: &str) -> (r: Result<(), Error>)
    ensures
        !has_nul(name.spec_bytes()) ==> r is Ok,
        has_nul(name.spec_bytes()) ==> (r matches Err(e) && exists|i: int|
            is_first_nul(name.spec_bytes(), i) && is_bad_name_error(e, i)),
{
    let bytes = name.as_bytes();
    let mut i: usize = 0;
    while i < bytes.len()
        invariant
            bytes@ == name.spec_bytes(),
            i <= bytes@.len(),
            forall|j: int| 0 <= j < i ==> bytes@[j] != 0,
        decreases bytes@.len() - i,
    {
        if bytes[i] == 0 {
            let mut m = "nul byte found in provided data at position: ".to_string();
            let digits = decimal_text(i);
            m.append(digits.as_str());
            assert(m@ == "nul byte found in provided data at position: "@ + decimal(i as nat));
            let e = Error::ToLuaConversionError { from: "&str", to: "string", message: Some(m) };
            assert(is_first_nul(name.spec_bytes(), i as int));
            assert(is_bad_name_error(e, i as int));
            return Err(e);
        }
        i = i + 1;
    }
    Ok(())
}

/// The source evaluated first when `source` is evaluated: the source as an
/// expression whose value is returned. When that does not compile, the
/// source is loaded as it is.
pub fn expression_chunk(source: &str) -> (r: String)
    ensures
        r@ == "return "@ + source@,
{
    let head = "return ".to_string();
    head.concat(source)
}

/// The key and value pairs of a sequence holding `values`: the first value
/// under key 1, the next under 2, and so on.
pub fn sequence_pairs(values: MultiValue) -> (r: Vec<(Value, Value)>)
    requires
        values@.len() < i64::MAX,
    ensures
        r@.len() == values@.len(),
        forall|i: int|
            0 <= i < r@.len() ==> #[trigger] r@[i] == (Value::Integer((i + 1) as i64), values@[i]),
{
    let mut rest = values;
    let ghost all = rest@;
    let mut r: Vec<(Value, Value)> = Vec::new();
    let mut k: i64 = 0;
    while rest.len() > 0
        invariant
            all.len() < i64::MAX,
            0 <= k <= all.len(),
            rest@ == all.skip(k as int),
            r@.len() == k,
            forall|i: int| 0 <= i < k ==> #[trigger] r@[i] == (Value::Integer((i + 1) as i64), all[i]),
        decreases rest@.len(),
    {
        let v = rest.pop_front().unwrap();
        assert(all.skip(k as int)[0] == all[k as int]);
        assert(all.skip(k + 1) =~= all.skip(k as int).drop_first());
        r.push((Value::Integer(k + 1), v));
        k = k + 1;
    }
    r
}

/// The standard libraries an engine can be given.
#[derive(Clone, Copy, Debug, PartialEq, Eq, Structural)]
pub enum Library {
    Base,
    Coroutine,
    Table,
    Io,
    Os,
    String,
    Utf8,
    Math,
    Package,
    /// Debug introspection: it can break every guarantee of the bridge, so
    /// it is only ever opened on explicit request.
    Debug,
}

pub open spec fn library_name(l: Library) -> Seq<char> {
    match l {
        Library::Base => "_G"@,
        Library::Coroutine => "coroutine"@,
        Library::Table => "table"@,
        Library::Io => "io"@,
        Library::Os => "os"@,
        Library::String => "string"@,
        Library::Utf8 => "utf8"@,
        Library::Math => "math"@,
        Library::Package => "package"@,
        Library::Debug => "debug"@,
    }
}

impl Library {
    /// The global name the library is opened under.
    pub fn name(&self) -> (r: &'static str)
        ensures
            r@ == library_name(*self),
    {
        match self {
            Library::Base => "_G",
            Library::Coroutine => "coroutine",
            Library::Table => "table",
            Library::Io => "io",
            Library::Os => "os",
            Library::String => "string",
            Library::Utf8 => "utf8",
            Library::Math => "math",
            Library::Package => "package",
            Library::Debug => "debug",
        }
    }
}

pub open spec fn standard_library_list() -> Seq<Library> {
    seq![
        Library::Base,
        Library::Coroutine,
        Library::Table,
        Library::Io,
        Library::Os,
        Library::String,
        Library::Utf8,
        Library::Math,
        Library::Package,
    ]
}

/// The libraries every new engine is opened with, in order: all but the
/// debug library.
pub fn standard_libraries() -> (r: Vec<Library>)
    ensures
        r@ == standard_library_list(),
        !r@.contains(Library::Debug),
{
    let r = vec![
        Library::Base,
        Library::Coroutine,
        Library::Table,
        Library::Io,
        Library::Os,
        Library::String,
        Library::Utf8,
        Library::Math,
        Library::Package,
    ];
    assert(r@ =~= standard_library_list());
    assert forall|i: int| 0 <= i < r@.len() implies r@[i] != Library::Debug by {}
    r
}

} // verus!
