use vstd::prelude::*;
use vstd::string::*;

verus! {

/// Decimal text of an integer: its digits, with a leading `-` when negative.
pub open spec fn int_text(n: int) -> Seq<char> {
    if n < 0 {
        seq!['-'] + nat_digits((-n) as nat)
    } else {
        nat_digits(n as nat)
    }
}

/// Decimal digits of a natural number, most significant first.
pub open spec fn nat_digits(n: nat) -> Seq<char>
    decreases n,
{
    if n < 10 {
        seq![digit_char(n)]
    } else {
        nat_digits(n / 10).push(digit_char(n % 10))
    }
}

pub open spec fn digit_char(d: nat) -> char {
    if d == 0 {
        '0'
    } else if d == 1 {
        '1'
    } else if d == 2 {
        '2'
    } else if d == 3 {
        '3'
    } else if d == 4 {
        '4'
    } else if d == 5 {
        '5'
    } else if d == 6 {
        '6'
    } else if d == 7 {
        '7'
    } else if d == 8 {
        '8'
    } else {
        '9'
    }
}

/// The text of one decimal digit.
fn digit_text(d: u64) -> (r: &'static str)
    requires
        d < 10,
    ensures
        r@ == seq![digit_char(d as nat)],
{
    if d == 0 {
        let s = "0";
        proof {
            reveal_strlit("0");
            assert(s@ =~= seq![digit_char(0)]);
        }
        s
    } else if d == 1 {
        let s = "1";
        proof {
            reveal_strlit("1");
            assert(s@ =~= seq![digit_char(1)]);
        }
        s
    } else if d == 2 {
        let s = "2";
        proof {
            reveal_strlit("2");
            assert(s@ =~= seq![digit_char(2)]);
        }
        s
    } else if d == 3 {
        let s = "3";
        proof {
            reveal_strlit("3");
            assert(s@ =~= seq![digit_char(3)]);
        }
        s
    } else if d == 4 {
        let s = "4";
        proof {
            reveal_strlit("4");
            assert(s@ =~= seq![digit_char(4)]);
        }
        s
    } else if d == 5 {
        let s = "5";
        proof {
            reveal_strlit("5");
            assert(s@ =~= seq![digit_char(5)]);
        }
        s
    } else if d == 6 {
        let s = "6";
        proof {
            reveal_strlit("6");
            assert(s@ =~= seq![digit_char(6)]);
        }
        s
    } else if d == 7 {
        let s = "7";
        proof {
            reveal_strlit("7");
            assert(s@ =~= seq![digit_char(7)]);
        }
        s
    } else if d == 8 {
        let s = "8";
        proof {
            reveal_strlit("8");
            assert(s@ =~= seq![digit_char(8)]);
        }
        s
    } else {
        let s = "9";
        proof {
            reveal_strlit("9");
            assert(s@ =~= seq![digit_char(9)]);
        }
        s
    }
}

/// The decimal text of an `i64`.
pub fn i64_text(n: i64) -> (r: String)
    ensures
        r@ == int_text(n as int),
{
    let neg = n < 0;
    let mut m: u64 = if neg {
        (0i128 - n as i128) as u64
    } else {
        n as u64
    };
    let ghost whole = m as nat;
    let mut acc = String::from_str(digit_text(m % 10));
    m = m / 10;
    while m > 0
        invariant
            m > 0 ==> nat_digits(whole) == nat_digits(m as nat) + acc@,
            m == 0 ==> nat_digits(whole) == acc@,
        decreases m,
    {
        let ghost before = acc@;
        acc = String::from_str(digit_text(m % 10)).concat(acc.as_str());
        proof {
            if m < 10 {
                assert(nat_digits(m as nat) == seq![digit_char(m as nat)]);
                assert(acc@ =~= nat_digits(m as nat) + before);
            } else {
                assert(nat_digits(m as nat) == nat_digits((m / 10) as nat).push(
                    digit_char((m % 10) as nat),
                ));
                assert(nat_digits((m / 10) as nat) + acc@ =~= nat_digits(m as nat) + before);
            }
        }
        m = m / 10;
    }
    if neg {
        let r = String::from_str("-").concat(acc.as_str());
        proof {
            reveal_strlit("-");
            assert(whole == -(n as int));
            assert(r@ =~= seq!['-'] + nat_digits(whole));
        }
        r
    } else {
        acc
    }
}

/// Every failure the search table function can report.
#[derive(Debug)]
pub enum DatenoError {
    Http(String),
    Json(String),
    Url(String),
    InvalidFilter(String),
    InvalidLimit(i64),
    MissingParameter(String),
    Api(String),
    DuckDB(String),
    Runtime(String),
    /// A rejected table-function argument; the text is shown as it is.
    Bind(String),
}

impl DatenoError {
    /// The human-readable text of the error.
    pub open spec fn message_spec(&self) -> Seq<char> {
        match self {
            DatenoError::Http(m) => "HTTP error: "@ + m@,
            DatenoError::Json(m) => "JSON parsing error: "@ + m@,
            DatenoError::Url(m) => "URL parsing error: "@ + m@,
            DatenoError::InvalidFilter(m) => "Invalid filter format: "@ + m@,
            DatenoError::InvalidLimit(n) => "Invalid limit: "@ + int_text(*n as int)
                + ". Must be between 1 and 100"@,
            DatenoError::MissingParameter(m) => "Missing required parameter: "@ + m@,
            DatenoError::Api(m) => "API error: "@ + m@,
            DatenoError::DuckDB(m) => "DuckDB error: "@ + m@,
            DatenoError::Runtime(m) => "Async runtime error: "@ + m@,
            DatenoError::Bind(m) => m@,
        }
    }

    /// The human-readable text of the error, as reported to the host engine.
    pub fn message(&self) -> (r: String)
        ensures
            r@ == self.message_spec(),
    {
        match self {
            DatenoError::Http(m) => String::from_str("HTTP error: ").concat(m.as_str()),
            DatenoError::Json(m) => String::from_str("JSON parsing error: ").concat(m.as_str()),
            DatenoError::Url(m) => String::from_str("URL parsing error: ").concat(m.as_str()),
            DatenoError::InvalidFilter(m) => String::from_str("Invalid filter format: ").concat(
                m.as_str(),
            ),
            DatenoError::InvalidLimit(n) => {
                let digits = i64_text(*n);
                String::from_str("Invalid limit: ").concat(digits.as_str()).concat(
                    ". Must be between 1 and 100",
                )
            },
            DatenoError::MissingParameter(m) => String::from_str(
                "Missing required parameter: ",
            ).concat(m.as_str()),
            DatenoError::Api(m) => String::from_str("API error: ").concat(m.as_str()),
            DatenoError::DuckDB(m) => String::from_str("DuckDB error: ").concat(m.as_str()),
            DatenoError::Runtime(m) => String::from_str("Async runtime error: ").concat(
                m.as_str(),
            ),
            DatenoError::Bind(m) => m.clone(),
        }
    }
}

} // verus!
