//! The gateway's response surface: the fixed bodies of the health-check and
//! fallback routes, the responses of the upload route, and the JSON rendering
//! of every status response.

use vstd::prelude::*;

verus! {

/// A status code and a short human-readable message; the body of every JSON
/// response the gateway produces. The `status` field mirrors the HTTP status
/// code of the response it travels in.
pub struct ResponseMessage {
    pub status: u16,
    pub message: String,
}

/// The decimal digit for a value below ten.
pub open spec fn spec_digit(d: nat) -> char {
    if d == 0 {
        '0'
    } else if d == 1 {
        '1'
    } else if d == 2 {
        '2'
    } else if d == 3 {
        '3'
    } else if d == 4 {
        '4'
    } else if d == 5 {
        '5'
    } else if d == 6 {
        '6'
    } else if d == 7 {
        '7'
    } else if d == 8 {
        '8'
    } else {
        '9'
    }
}

/// The decimal rendering of a number: most significant digit first, no sign,
/// no leading zero except for zero itself.
pub open spec fn spec_decimal(n: nat) -> Seq<char>
    decreases n,
{
    if n < 10 {
        seq![spec_digit(n)]
    } else {
        spec_decimal(n / 10).push(spec_digit(n % 10))
    }
}

/// The JSON body carrying a status code and a message. The message is
/// embedded verbatim; every message this library produces consists of plain
/// characters that JSON does not escape.
pub open spec fn spec_json_body(status: nat, message: Seq<char>) -> Seq<char> {
    "{\"status\":"@ + spec_decimal(status) + ",\"message\":\""@ + message + "\"}"@
}

/// One decimal digit as a string slice.
fn digit_str(d: u16) -> (r: &'static str)
    requires
        d < 10,
    ensures
        r@ == seq![spec_digit(d as nat)],
{
    if d == 0 {
        proof {
            reveal_strlit("0");
            assert("0"@ =~= seq![spec_digit(0)]);
        }
        "0"
    } else if d == 1 {
        proof {
            reveal_strlit("1");
            assert("1"@ =~= seq![spec_digit(1)]);
        }
        "1"
    } else if d == 2 {
        proof {
            reveal_strlit("2");
            assert("2"@ =~= seq![spec_digit(2)]);
        }
        "2"
    } else if d == 3 {
        proof {
            reveal_strlit("3");
            assert("3"@ =~= seq![spec_digit(3)]);
        }
        "3"
    } else if d == 4 {
        proof {
            reveal_strlit("4");
            assert("4"@ =~= seq![spec_digit(4)]);
        }
        "4"
    } else if d == 5 {
        proof {
            reveal_strlit("5");
            assert("5"@ =~= seq![spec_digit(5)]);
        }
        "5"
    } else if d == 6 {
        proof {
            reveal_strlit("6");
            assert("6"@ =~= seq![spec_digit(6)]);
        }
        "6"
    } else if d == 7 {
        proof {
            reveal_strlit("7");
            assert("7"@ =~= seq![spec_digit(7)]);
        }
        "7"
    } else if d == 8 {
        proof {
            reveal_strlit("8");
            assert("8"@ =~= seq![spec_digit(8)]);
        }
        "8"
    } else {
        proof {
            reveal_strlit("9");
            assert("9"@ =~= seq![spec_digit(9)]);
        }
        "9"
    }
}

/// The decimal rendering of a status code.
pub fn decimal_string(n: u16) -> (r: String)
    ensures
        r@ == spec_decimal(n as nat),
    decreases n,
{
    if n < 10 {
        String::from_str(digit_str(n))
    } else {
        let q: u16 = n / 10;
        let d: u16 = n % 10;
        let mut s = decimal_string(q);
        s.append(digit_str(d));
        s
    }
}

impl ResponseMessage {
    /// Renders this message as the gateway's JSON body,
    /// `{"status":N,"message":"M"}`, with the message embedded verbatim.
    pub fn json_body(&self) -> (r: String)
        ensures
            r@ == spec_json_body(self.status as nat, self.message@),
    {
        let mut out = String::from_str("{\"status\":");
        let num = decimal_string(self.status);
        out.append(num.as_str());
        out.append(",\"message\":\"");
        out.append(self.message.as_str());
        out.append("\"}");
        out
    }

    /// The response of a completed upload: status 201.
    pub fn file_uploaded() -> (r: ResponseMessage)
        ensures
            r.status == 201,
            r.message@ == "File uploaded successfully"@,
    {
        ResponseMessage { status: 201, message: String::from_str("File uploaded successfully") }
    }

    /// The response of a failed backend call or of missing per-request
    /// configuration: status 500.
    pub fn upload_failed() -> (r: ResponseMessage)
        ensures
            r.status == 500,
            r.message@ == "Failed to upload file"@,
    {
        ResponseMessage { status: 500, message: String::from_str("Failed to upload file") }
    }

    /// The response of an upload request that carries no usable file field:
    /// status 400.
    pub fn no_file_found() -> (r: ResponseMessage)
        ensures
            r.status == 400,
            r.message@ == "No file found"@,
    {
        ResponseMessage { status: 400, message: String::from_str("No file found") }
    }
}

/// The health-check body: always exactly `pong!`, no state consulted.
pub fn get_ping() -> (r: &'static str)
    ensures
        r@ == "pong!"@,
{
    "pong!"
}

/// Law: the fallback body. The JSON rendering of the fallback response is
/// exactly the fixed body `{"status":404,"message":"404 not found"}`.
pub proof fn lemma_not_found_body()
    ensures
        spec_json_body(404, "404 not found"@) == "{\"status\":404,\"message\":\"404 not found\"}"@,
{
    reveal_strlit("{\"status\":");
    reveal_strlit(",\"message\":\"");
    reveal_strlit("\"}");
    reveal_strlit("404 not found");
    reveal_strlit("{\"status\":404,\"message\":\"404 not found\"}");
    reveal_with_fuel(spec_decimal, 4);
    assert(spec_decimal(404) =~= seq!['4', '0', '4']);
    assert(spec_json_body(404, "404 not found"@) =~= "{\"status\":404,\"message\":\"404 not found\"}"@);
}

/// The fallback response for every unmatched route: status 404 with the
/// fixed message.
pub fn handler_404() -> (r: ResponseMessage)
    ensures
        r.status == 404,
        r.message@ == "404 not found"@,
{
    ResponseMessage { status: 404, message: String::from_str("404 not found") }
}

} // verus!
