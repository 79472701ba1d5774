//! What can go wrong, and how it is reported.
use gcp_auth::Error as AuthFailure;
use tonic::transport::Error as TransportFailure;
use vstd::prelude::*;

verus! {

/// Error types that may occur during Bigtable operations.
///
/// This enum covers various error scenarios including:
/// - Authentication and access token errors
/// - Transport and RPC errors
/// - Row operation failures
/// - Timeout errors
#[derive(Debug)]
pub enum Error {
    AccessTokenError(String),
    CertificateError(String),
    IoError(std::io::Error),
    TransportError(TransportFailure),
    ChunkError(String),
    RowNotFound,
    RowWriteFailed,
    ObjectNotFound(String),
    ObjectCorrupt(String),
    RpcError(tonic::Status),
    /// The seconds after which the operation was given up.
    TimeoutError(u64),
    GCPAuthError(AuthFailure),
}

impl std::convert::From<std::io::Error> for Error {
    fn from(err: std::io::Error) -> (res: Self) {
        Error::IoError(err)
    }
}

impl vstd::std_specs::convert::FromSpecImpl<std::io::Error> for Error {
    open spec fn obeys_from_spec() -> bool {
        true
    }

    open spec fn from_spec(err: std::io::Error) -> Self {
        Error::IoError(err)
    }
}

impl std::convert::From<TransportFailure> for Error {
    fn from(err: TransportFailure) -> (res: Self) {
        Error::TransportError(err)
    }
}

impl vstd::std_specs::convert::FromSpecImpl<TransportFailure> for Error {
    open spec fn obeys_from_spec() -> bool {
        true
    }

    open spec fn from_spec(err: TransportFailure) -> Self {
        Error::TransportError(err)
    }
}

impl std::convert::From<tonic::Status> for Error {
    fn from(err: tonic::Status) -> (res: Self) {
        Error::RpcError(err)
    }
}

impl vstd::std_specs::convert::FromSpecImpl<tonic::Status> for Error {
    open spec fn obeys_from_spec() -> bool {
        true
    }

    open spec fn from_spec(err: tonic::Status) -> Self {
        Error::RpcError(err)
    }
}

impl std::convert::From<AuthFailure> for Error {
    fn from(err: AuthFailure) -> (res: Self) {
        Error::GCPAuthError(err)
    }
}

impl vstd::std_specs::convert::FromSpecImpl<AuthFailure> for Error {
    open spec fn obeys_from_spec() -> bool {
        true
    }

    open spec fn from_spec(err: AuthFailure) -> Self {
        Error::GCPAuthError(err)
    }
}

/// What a call returns: the reply, or the status of the failed call as an [`Error::RpcError`].
pub fn rpc_result<T>(reply: Result<T, tonic::Status>) -> (res: Result<T, Error>)
    ensures
        res == match reply {
            Ok(value) => Ok::<T, Error>(value),
            Err(status) => Err(Error::RpcError(status)),
        },
{
    match reply {
        Ok(value) => Ok(value),
        Err(status) => Err(Error::from(status)),
    }
}

/// The decimal digit for a number below ten.
pub open spec fn digit(d: nat) -> Seq<char> {
    if d == 0 {
        "0"@
    } else if d == 1 {
        "1"@
    } else if d == 2 {
        "2"@
    } else if d == 3 {
        "3"@
    } else if d == 4 {
        "4"@
    } else if d == 5 {
        "5"@
    } else if d == 6 {
        "6"@
    } else if d == 7 {
        "7"@
    } else if d == 8 {
        "8"@
    } else {
        "9"@
    }
}

/// A number in decimal notation.
pub open spec fn decimal(n: nat) -> Seq<char>
    decreases n,
{
    if n < 10 {
        digit(n)
    } else {
        decimal(n / 10) + digit(n % 10)
    }
}

fn digit_text(d: u64) -> (res: &'static str)
    requires
        d < 10,
    ensures
        res@ == digit(d as nat),
{
    match d {
        0 => "0",
        1 => "1",
        2 => "2",
        3 => "3",
        4 => "4",
        5 => "5",
        6 => "6",
        7 => "7",
        8 => "8",
        _ => "9",
    }
}

fn decimal_text(n: u64) -> (res: String)
    ensures
        res@ == decimal(n as nat),
    decreases n,
{
    if n < 10 {
        digit_text(n).to_owned()
    } else {
        let mut text = decimal_text(n / 10);
        text.append(digit_text(n % 10));
        text
    }
}

fn joined(first: &str, second: &str) -> (res: String)
    ensures
        res@ == first@ + second@,
{
    let mut text = first.to_owned();
    text.append(second);
    text
}

impl Error {
    /// Whether `text` is the message of this error: a fixed phrase, followed by the detail that
    /// the error carries. The detail of an outside error is what it displays.
    pub open spec fn says(self, text: Seq<char>) -> bool {
        match self {
            Error::AccessTokenError(detail) => text == "AccessToken error: "@ + detail@,
            Error::CertificateError(detail) => text == "Certificate error: "@ + detail@,
            Error::IoError(err) => exists|detail: String| #[trigger]
                vstd::string::to_string_from_display_ensures::<std::io::Error>(&err, detail)
                    && text == "I/O Error: "@ + detail@,
            Error::TransportError(err) => exists|detail: String| #[trigger]
                vstd::string::to_string_from_display_ensures::<TransportFailure>(&err, detail)
                    && text == "Transport error: "@ + detail@,
            Error::ChunkError(_) => text == "Chunk error"@,
            Error::RowNotFound => text == "Row not found"@,
            Error::RowWriteFailed => text == "Row write failed"@,
            Error::ObjectNotFound(detail) => text == "Object not found: "@ + detail@,
            Error::ObjectCorrupt(detail) => text == "Object is corrupt: "@ + detail@,
            Error::RpcError(err) => exists|detail: String| #[trigger]
                vstd::string::to_string_from_display_ensures::<tonic::Status>(&err, detail)
                    && text == "RPC error: "@ + detail@,
            Error::TimeoutError(seconds) => text == "Timeout error after "@ + decimal(
                seconds as nat,
            ) + " seconds"@,
            Error::GCPAuthError(err) => exists|detail: String| #[trigger]
                vstd::string::to_string_from_display_ensures::<AuthFailure>(&err, detail)
                    && text == "GCPAuthError error: "@ + detail@,
        }
    }

    /// The message of this error.
    pub fn message(&self) -> (res: String)
        ensures
            self.says(res@),
            match *self {
                Error::AccessTokenError(detail) => res@ == "AccessToken error: "@ + detail@,
                Error::CertificateError(detail) => res@ == "Certificate error: "@ + detail@,
                Error::IoError(err) => exists|shown: String|
                    vstd::string::to_string_from_display_ensures::<std::io::Error>(&err, shown)
                        && res@ == "I/O Error: "@ + #[trigger] shown@,
                Error::TransportError(err) => exists|shown: String|
                    vstd::string::to_string_from_display_ensures::<TransportFailure>(&err, shown)
                        && res@ == "Transport error: "@ + #[trigger] shown@,
                Error::ChunkError(_) => res@ == "Chunk error"@,
                Error::RowNotFound => res@ == "Row not found"@,
                Error::RowWriteFailed => res@ == "Row write failed"@,
                Error::ObjectNotFound(detail) => res@ == "Object not found: "@ + detail@,
                Error::ObjectCorrupt(detail) => res@ == "Object is corrupt: "@ + detail@,
                Error::RpcError(err) => exists|shown: String|
                    vstd::string::to_string_from_display_ensures::<tonic::Status>(&err, shown)
                        && res@ == "RPC error: "@ + #[trigger] shown@,
                Error::TimeoutError(seconds) => res@ == "Timeout error after "@ + decimal(
                    seconds as nat,
                ) + " seconds"@,
                Error::GCPAuthError(err) => exists|shown: String|
                    vstd::string::to_string_from_display_ensures::<AuthFailure>(&err, shown)
                        && res@ == "GCPAuthError error: "@ + #[trigger] shown@,
            },
    {
        match self {
            Error::AccessTokenError(detail) => joined("AccessToken error: ", detail.as_str()),
            Error::CertificateError(detail) => joined("Certificate error: ", detail.as_str()),
            Error::IoError(err) => {
                let detail = err.to_string();
                assert(vstd::string::to_string_from_display_ensures::<std::io::Error>(err, detail));
                joined("I/O Error: ", detail.as_str())
            },
            Error::TransportError(err) => {
                let detail = err.to_string();
                assert(vstd::string::to_string_from_display_ensures::<TransportFailure>(
                    err,
                    detail,
                ));
                joined("Transport error: ", detail.as_str())
            },
            Error::ChunkError(_) => "Chunk error".to_owned(),
            Error::RowNotFound => "Row not found".to_owned(),
            Error::RowWriteFailed => "Row write failed".to_owned(),
            Error::ObjectNotFound(detail) => joined("Object not found: ", detail.as_str()),
            Error::ObjectCorrupt(detail) => joined("Object is corrupt: ", detail.as_str()),
            Error::RpcError(err) => {
                let detail = err.to_string();
                assert(vstd::string::to_string_from_display_ensures::<tonic::Status>(err, detail));
                joined("RPC error: ", detail.as_str())
            },
            Error::TimeoutError(seconds) => {
                let mut text = joined("Timeout error after ", decimal_text(*seconds).as_str());
                text.append(" seconds");
                text
            },
            Error::GCPAuthError(err) => {
                let detail = err.to_string();
                assert(vstd::string::to_string_from_display_ensures::<AuthFailure>(err, detail));
                joined("GCPAuthError error: ", detail.as_str())
            },
        }
    }
}

/// The number that a text spells in decimal notation.
pub open spec fn spelled_number(text: Seq<char>) -> int
    decreases text.len(),
{
    if text.len() == 0 {
        0
    } else {
        10 * spelled_number(text.drop_last()) + (text.last() as int - '0' as int)
    }
}

/// A number in decimal notation is a non-empty text of decimal digits, without a leading zero but
/// for zero itself, and spells that number. Its last digit is the remainder by ten, and what comes
/// before spells the quotient.
pub proof fn decimal_notation_spells_the_number(n: nat)
    ensures
        decimal(n).len() > 0,
        forall|i: int| 0 <= i < decimal(n).len() ==> '0' <= #[trigger] decimal(n)[i] <= '9',
        n > 0 ==> decimal(n)[0] != '0',
        spelled_number(decimal(n)) == n,
        n < 10 ==> decimal(n) == seq![('0' as int + n) as char],
        n >= 10 ==> decimal(n) == decimal(n / 10).push(('0' as int + n % 10) as char),
    decreases n,
{
    reveal_strlit("0");
    reveal_strlit("1");
    reveal_strlit("2");
    reveal_strlit("3");
    reveal_strlit("4");
    reveal_strlit("5");
    reveal_strlit("6");
    reveal_strlit("7");
    reveal_strlit("8");
    reveal_strlit("9");
    let last = n % 10;
    assert(digit(last) =~= seq![('0' as int + last) as char]);
    if n < 10 {
        assert(decimal(n).drop_last() =~= Seq::<char>::empty());
        assert(spelled_number(Seq::<char>::empty()) == 0);
        assert(spelled_number(decimal(n)) == 10 * spelled_number(decimal(n).drop_last()) + n);
    } else {
        decimal_notation_spells_the_number(n / 10);
        assert(decimal(n) =~= decimal(n / 10).push(('0' as int + last) as char));
        assert(decimal(n).drop_last() =~= decimal(n / 10));
        assert(decimal(n)[0] == decimal(n / 10)[0]);
    }
}

/// Different numbers of seconds are written differently.
pub proof fn decimal_notation_is_unambiguous(m: nat, n: nat)
    requires
        decimal(m) == decimal(n),
    ensures
        m == n,
{
    decimal_notation_spells_the_number(m);
    decimal_notation_spells_the_number(n);
}

/// An outside error becomes an error of its own kind, which holds it unchanged.
pub proof fn outside_errors_are_kept(
    io: std::io::Error,
    transport: TransportFailure,
    status: tonic::Status,
    auth: AuthFailure,
    from_io: Error,
    from_transport: Error,
    from_status: Error,
    from_auth: Error,
)
    requires
        call_ensures(<Error as std::convert::From<std::io::Error>>::from, (io,), from_io),
        call_ensures(
            <Error as std::convert::From<TransportFailure>>::from,
            (transport,),
            from_transport,
        ),
        call_ensures(<Error as std::convert::From<tonic::Status>>::from, (status,), from_status),
        call_ensures(<Error as std::convert::From<AuthFailure>>::from, (auth,), from_auth),
    ensures
        from_io == Error::IoError(io),
        from_transport == Error::TransportError(transport),
        from_status == Error::RpcError(status),
        from_auth == Error::GCPAuthError(auth),
{
}

} // verus!
