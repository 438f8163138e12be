//! What a development session does before any event: where its server listens, and the
//! outputs it starts with.
use vstd::prelude::*;
use crate::event::OutputEvent;
use crate::foreign::{blue, blue_start, color_reset, parse_url, parsed_url, push_char};

verus! {

/// The name of the package that builds the site.
pub const BUILDER_CRATE_NAME: &'static str = "builder";

/// The host on which the file server listens.
pub const LOCALHOST: &'static str = "localhost";

/// The character of a decimal digit.
pub open spec fn digit_char(d: nat) -> char
    recommends
        d < 10,
{
    (('0' as nat) + d) as char
}

/// The decimal notation of a number, most significant digit first, without leading zeros.
pub open spec fn decimal(n: nat) -> Seq<char>
    decreases n,
{
    if n < 10 {
        seq![digit_char(n)]
    } else {
        decimal(n / 10).push(digit_char(n % 10))
    }
}

/// The number that a sequence of decimal digits denotes.
pub open spec fn decimal_value(digits: Seq<char>) -> int
    decreases digits.len(),
{
    if digits.len() == 0 {
        0
    } else {
        decimal_value(digits.drop_last()) * 10 + (digits.last() as int - '0' as int)
    }
}

/// Whether a character is a decimal digit.
pub open spec fn is_digit(c: char) -> bool {
    '0' <= c && c <= '9'
}

/// The decimal notation of a number is made of digits, starts with a non-zero digit
/// unless the number is zero, and denotes the number.
pub proof fn decimal_denotes_number(n: nat)
    ensures
        decimal(n).len() > 0,
        forall|i: int| 0 <= i < decimal(n).len() ==> is_digit(#[trigger] decimal(n)[i]),
        n > 0 ==> decimal(n)[0] != '0',
        decimal_value(decimal(n)) == n,
    decreases n,
{
    assert(digit_char(n % 10) as int == '0' as int + n % 10);
    if n >= 10 {
        decimal_denotes_number(n / 10);
        let prefix = decimal(n / 10);
        assert(decimal(n).drop_last() =~= prefix);
        assert forall|i: int| 0 <= i < decimal(n).len() implies is_digit(#[trigger] decimal(n)[i]) by {
            if i < prefix.len() {
                assert(decimal(n)[i] == prefix[i]);
            }
        }
        assert(decimal_value(decimal(n)) == decimal_value(prefix) * 10 + (n % 10));
    } else {
        assert(decimal(n).drop_last() =~= Seq::<char>::empty());
        assert(decimal_value(decimal(n)) == decimal_value(Seq::<char>::empty()) * 10 + n);
    }
}

/// Appends the decimal notation of `n` to `s`.
fn push_decimal(s: &mut String, n: u16)
    ensures
        final(s)@ == old(s)@ + decimal(n as nat),
    decreases n,
{
    if n >= 10 {
        push_decimal(s, n / 10);
    }
    let d: u8 = (n % 10) as u8;
    let c: char = (48u8 + d) as char;
    assert(c == digit_char((n % 10) as nat));
    push_char(s, c);
    proof {
        if n >= 10 {
            assert(old(s)@ + decimal(n as nat) =~= (old(s)@ + decimal((n / 10) as nat)).push(c));
        } else {
            assert(old(s)@ + decimal(n as nat) =~= old(s)@.push(c));
        }
    }
}

/// The address of the file server on a port, before it is parsed as a URL.
pub open spec fn spec_localhost_address(port: u16) -> Seq<char> {
    "http://"@ + LOCALHOST@ + seq![':'] + decimal(port as nat)
}

/// The address of the file server on a port: `http://localhost:` and the port in decimal.
pub fn localhost_address(port: u16) -> (r: String)
    ensures
        r@ == spec_localhost_address(port),
{
    let mut address = String::from_str("http://");
    address.append(LOCALHOST);
    push_char(&mut address, ':');
    push_decimal(&mut address, port);
    proof {
        assert(address@ =~= spec_localhost_address(port));
    }
    address
}

/// The URL of the file server on a port: the address parsed as a URL and written out again,
/// or `None` where the parser refuses it.
pub fn server_url(port: u16) -> (r: Option<String>)
    ensures
        match r {
            Some(u) => parsed_url(spec_localhost_address(port)) == Some(u@),
            None => parsed_url(spec_localhost_address(port)) is None,
        },
{
    let address = localhost_address(port);
    parse_url(address.as_str())
}

/// The text that announces the server, before it is colored.
pub open spec fn spec_server_started_message(url: Seq<char>) -> Seq<char> {
    seq!['\n'] + "Server started at "@ + url + seq!['\n']
}

/// The text that announces the server: a blank line, `Server started at ` and the URL, and a
/// line break.
pub fn server_started_message(url: &str) -> (r: String)
    ensures
        r@ == spec_server_started_message(url@),
        r@.len() == url@.len() + 20,
        r@[0] == '\n',
        r@.subrange(1, 19) == "Server started at "@,
        r@.subrange(19, 19 + url@.len() as int) == url@,
        r@[r@.len() - 1int] == '\n',
{
    let mut message = String::new();
    push_char(&mut message, '\n');
    message.append("Server started at ");
    message.append(url);
    push_char(&mut message, '\n');
    proof {
        assert(message@ =~= spec_server_started_message(url@));
        announcement_holds_url(url@);
    }
    message
}

/// The announcement is a line break, `Server started at `, the whole URL, and a line break,
/// for a URL of any length: the URL stands in it, in full and in order, right after the
/// greeting.
pub proof fn announcement_holds_url(url: Seq<char>)
    ensures
        spec_server_started_message(url).len() == url.len() + 20,
        spec_server_started_message(url)[0] == '\n',
        spec_server_started_message(url).subrange(1, 19) == "Server started at "@,
        spec_server_started_message(url).subrange(19, 19 + url.len() as int) == url,
        spec_server_started_message(url)[url.len() + 19int] == '\n',
{
    reveal_strlit("Server started at ");
    let m = spec_server_started_message(url);
    assert(m.subrange(1, 19) =~= "Server started at "@);
    assert(m.subrange(19, 19 + url.len() as int) =~= url);
}

/// The outputs a session starts with, given the announcement to print.
pub open spec fn spec_initial_outputs<C>(launch_browser: bool, message: String) -> Seq<OutputEvent<C>> {
    if launch_browser {
        seq![OutputEvent::<C>::RunBuilder, OutputEvent::Stderr(message), OutputEvent::OpenBrowser]
    } else {
        seq![OutputEvent::<C>::RunBuilder, OutputEvent::Stderr(message)]
    }
}

/// The outputs a session starts with, given the announcement to print: run the builder,
/// print the announcement, and open the browser where that was asked for.
pub fn initial_outputs<C>(launch_browser: bool, message: String) -> (r: Vec<OutputEvent<C>>)
    ensures
        r@ == spec_initial_outputs::<C>(launch_browser, message),
{
    let mut initial = Vec::new();
    initial.push(OutputEvent::RunBuilder);
    initial.push(OutputEvent::Stderr(message));
    if launch_browser {
        initial.push(OutputEvent::OpenBrowser);
    }
    initial
}

/// The outputs a session starts with, for a server at `url`: run the builder, print the
/// announcement colored blue where the environment allows colors, and open the browser
/// where that was asked for.
pub fn startup_outputs<C>(launch_browser: bool, url: &str) -> (r: Vec<OutputEvent<C>>)
    ensures
        r.len() == if launch_browser { 3nat } else { 2nat },
        r@[0] == OutputEvent::<C>::RunBuilder,
        r@[1] is Stderr,
        !url@.contains('\u{1b}') ==> (r@[1] matches OutputEvent::Stderr(m) && (
            m@ == spec_server_started_message(url@)
            || m@ == blue_start() + spec_server_started_message(url@) + color_reset())),
        launch_browser ==> r@[2] == OutputEvent::<C>::OpenBrowser,
{
    let message = server_started_message(url);
    proof {
        if !url@.contains('\u{1b}') {
            assert forall|i: int| 0 <= i < message@.len() implies message@[i] != '\u{1b}' by {
                reveal_strlit("Server started at ");
                if 0 < i && i < 19 {
                    assert(message@[i] == "Server started at "@[i - 1]);
                } else if 19 <= i && i < message@.len() - 1 {
                    assert(message@[i] == url@[i - 19]);
                }
            }
        }
    }
    let colored = blue(message.as_str());
    initial_outputs(launch_browser, colored)
}

} // verus!
