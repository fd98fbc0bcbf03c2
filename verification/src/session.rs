//! Starting a session: the join code a host hands out, and the player
//! configuration a user sets up once.

use vstd::prelude::*;
use crate::text::{decimal, push_decimal, push_seq};
use crate::types::Config;

verus! {

/// Calls `rand::random_range(low..high)`: a number drawn from the
/// thread-local generator, at least `low` and below `high`. The crate
/// panics on an empty range, which the precondition rules out.
#[verifier::external_body]
fn random_below(low: u32, high: u32) -> (r: u32)
    requires
        low < high,
    ensures
        low <= r < high,
{
    rand::random_range(low..high)
}

/// Whether `code` is a join code: the decimal rendering of a number from
/// 1111 up to 9998.
pub open spec fn is_join_code(code: Seq<char>) -> bool {
    exists|v: nat| 1111 <= v < 9999 && code == decimal(v)
}

/// A fresh join code for a session.
pub fn generate_numeric_code() -> (code: String)
    ensures
        is_join_code(code@),
{
    let v = random_below(1111, 9999);
    let mut code = String::new();
    push_decimal(&mut code, v as u128);
    assert(code@ == decimal(v as nat));
    code
}

/// A join code has four characters, all of them ASCII digits.
pub proof fn law_join_code_has_four_digits(code: Seq<char>)
    requires
        is_join_code(code),
    ensures
        code.len() == 4,
        forall|i: int| 0 <= i < 4 ==> '0' <= #[trigger] code[i] <= '9',
{
    let v = choose|v: nat| 1111 <= v < 9999 && code == decimal(v);
    assert(decimal(v) == decimal(v / 10).push(crate::text::digit_char(v % 10)));
    assert(decimal(v / 10) == decimal(v / 100).push(crate::text::digit_char((v / 10) % 10)));
    assert(decimal(v / 100) == decimal(v / 1000).push(crate::text::digit_char((v / 100) % 10)));
    assert(decimal(v / 1000) == seq![crate::text::digit_char(v / 1000)]);
    assert(('0' as u32) == 48);
}

/// Where the configuration lives under the home directory `home`.
pub fn config_path(home: &str) -> (path: String)
    ensures
        path@ == home@ + "/.syncho"@,
{
    let mut path = String::new();
    push_seq(&mut path, home);
    push_seq(&mut path, "/.syncho");
    path
}

/// The players a user can choose from, in the order they are offered.
pub fn player_choices() -> (choices: Vec<String>)
    ensures
        choices@.len() == 2,
        choices@[0]@ == "Cider"@,
        choices@[1]@ == "Spotify"@,
{
    let mut cider = String::new();
    push_seq(&mut cider, "Cider");
    let mut spotify = String::new();
    push_seq(&mut spotify, "Spotify");
    let mut choices: Vec<String> = Vec::new();
    choices.push(cider);
    choices.push(spotify);
    choices
}

/// The questions asked for the chosen player: its token for Cider; the
/// refresh token, client ID, client secret and access token for Spotify.
pub open spec fn prompts_for(choice: nat) -> Seq<Seq<char>> {
    if choice == 0 {
        seq!["Enter your Cider token"@]
    } else {
        seq![
            "Enter your Spotify refresh token"@,
            "Enter your Spotify client ID"@,
            "Enter your Spotify client secret"@,
            "Enter your Spotify access token"@,
        ]
    }
}

fn text(s: &str) -> (t: String)
    ensures
        t@ == s@,
{
    let mut t = String::new();
    push_seq(&mut t, s);
    t
}

/// The questions asked for the player chosen at position `choice`.
pub fn setup_prompts(choice: usize) -> (prompts: Vec<String>)
    requires
        choice < 2,
    ensures
        prompts@.len() == prompts_for(choice as nat).len(),
        forall|i: int| 0 <= i < prompts@.len() ==> #[trigger] prompts@[i]@ == prompts_for(choice as nat)[i],
{
    let mut prompts: Vec<String> = Vec::new();
    if choice == 0 {
        prompts.push(text("Enter your Cider token"));
    } else {
        prompts.push(text("Enter your Spotify refresh token"));
        prompts.push(text("Enter your Spotify client ID"));
        prompts.push(text("Enter your Spotify client secret"));
        prompts.push(text("Enter your Spotify access token"));
    }
    prompts
}

/// The configuration for the player chosen at position `choice`, from the
/// answers to its questions, in order.
pub fn config_from_answers(choice: usize, answers: Vec<String>) -> (config: Config)
    requires
        choice < 2,
        answers@.len() == prompts_for(choice as nat).len(),
    ensures
        choice == 0 ==> config == (Config::Cider { token: answers@[0] }),
        choice == 1 ==> config == (Config::Spotify {
            refresh_token: answers@[0],
            client_id: answers@[1],
            client_secret: answers@[2],
            access_token: answers@[3],
        }),
{
    let mut answers = answers;
    if choice == 0 {
        let token = answers.remove(0);
        Config::Cider { token }
    } else {
        let access_token = answers.pop().unwrap();
        let client_secret = answers.pop().unwrap();
        let client_id = answers.pop().unwrap();
        let refresh_token = answers.pop().unwrap();
        Config::Spotify { refresh_token, client_id, client_secret, access_token }
    }
}

} // verus!
