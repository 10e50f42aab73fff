//! The service's settings: their defaults, the values that the handlers read,
//! and the administrator password that is made up when none is configured.

use vstd::prelude::*;
use vstd::string::*;
use crate::random::{choose_char, thread_rng};
use crate::text::{push_char, str_starts_with};

verus! {

/// A default value of a setting.
pub enum ConfigValue {
    Int(i64),
    Text(String),
}

/// Whether the default `entry` gives the setting `key` the number `value`.
pub open spec fn int_default(entry: (String, ConfigValue), key: Seq<char>, value: i64) -> bool {
    &&& entry.0@ == key
    &&& entry.1 matches ConfigValue::Int(v) && v == value
}

/// Whether the default `entry` gives the setting `key` the text `value`.
pub open spec fn text_default(entry: (String, ConfigValue), key: Seq<char>, value: Seq<char>) -> bool {
    &&& entry.0@ == key
    &&& entry.1 matches ConfigValue::Text(v) && v@ == value
}

/// What the administrator password is made of when none is configured: a fixed
/// marker, a dash and a random key.
pub open spec fn runtime_psk_for(key: Seq<char>) -> Seq<char> {
    "RUNTIME_GENERATED-"@ + key
}

/// The marker that starts a password made up at start-up.
pub open spec fn runtime_marker() -> Seq<char> {
    "RUNTIME_GENERATED"@
}

/// The defaults of the settings, with `generated_key` in the made-up
/// administrator password: links of 16 characters, the usual address of the
/// home automation server, five minutes between pings, port 5892, the database
/// file, and the password.
pub fn config_defaults(generated_key: &str) -> (r: Vec<(String, ConfigValue)>)
    ensures
        r@.len() == 6,
        int_default(r@[0], "link_len"@, 16),
        text_default(r@[1], "haas_url"@, "http://homeassistant.local:8123"@),
        int_default(r@[2], "ping_timeout"@, 300),
        int_default(r@[3], "port"@, 5892),
        text_default(r@[4], "db"@, "db/db.sqlite"@),
        text_default(r@[5], "PRE_SHARED_KEY"@, runtime_psk_for(generated_key@)),
{
    let mut r: Vec<(String, ConfigValue)> = Vec::new();
    r.push((String::from_str("link_len"), ConfigValue::Int(16)));
    r.push((String::from_str("haas_url"), ConfigValue::Text(String::from_str("http://homeassistant.local:8123"))));
    r.push((String::from_str("ping_timeout"), ConfigValue::Int(300)));
    r.push((String::from_str("port"), ConfigValue::Int(5892)));
    r.push((String::from_str("db"), ConfigValue::Text(String::from_str("db/db.sqlite"))));
    r.push((String::from_str("PRE_SHARED_KEY"), ConfigValue::Text(runtime_psk(generated_key))));
    r
}

/// The administrator password made up from the random `key`.
pub fn runtime_psk(key: &str) -> (r: String)
    ensures
        r@ == runtime_psk_for(key@),
{
    let mut s = String::from_str("RUNTIME_GENERATED-");
    s.append(key);
    s
}

/// Whether `psk` is a password made up at start-up (the service then warns that
/// no password is configured and shows the one it made up).
pub fn is_runtime_generated(psk: &str) -> (r: bool)
    ensures
        r == runtime_marker().is_prefix_of(psk@),
{
    str_starts_with(psk, "RUNTIME_GENERATED")
}

/// A password made up at start-up is recognised as one, whatever its random key.
pub proof fn law_runtime_psk_is_recognised(key: Seq<char>)
    ensures
        runtime_marker().is_prefix_of(runtime_psk_for(key)),
{
    reveal_strlit("RUNTIME_GENERATED");
    reveal_strlit("RUNTIME_GENERATED-");
    assert(runtime_psk_for(key).subrange(0, runtime_marker().len() as int) =~= runtime_marker());
}

/// The characters of a random key: digits and letters of both cases.
pub open spec fn key_alphabet() -> Seq<char> {
    seq![
        '0', '1', '2', '3', '4', '5', '6', '7', '8', '9',
        'A', 'B', 'C', 'D', 'E', 'F', 'G', 'H', 'I', 'J', 'K', 'L', 'M', 'N', 'O', 'P', 'Q', 'R',
        'S', 'T', 'U', 'V', 'W', 'X', 'Y', 'Z',
        'a', 'b', 'c', 'd', 'e', 'f', 'g', 'h', 'i', 'j', 'k', 'l', 'm', 'n', 'o', 'p', 'q', 'r',
        's', 't', 'u', 'v', 'w', 'x', 'y', 'z',
    ]
}

/// The length of a random key.
pub const KEY_LEN: usize = 64;

/// A random key of 64 digits and letters.
pub fn gen_random_key() -> (r: String)
    ensures
        r@.len() == KEY_LEN,
        forall|i: int| 0 <= i < r@.len() ==> key_alphabet().contains(#[trigger] r@[i]),
{
    let alphabet: Vec<char> = vec![
        '0', '1', '2', '3', '4', '5', '6', '7', '8', '9',
        'A', 'B', 'C', 'D', 'E', 'F', 'G', 'H', 'I', 'J', 'K', 'L', 'M', 'N', 'O', 'P', 'Q', 'R',
        'S', 'T', 'U', 'V', 'W', 'X', 'Y', 'Z',
        'a', 'b', 'c', 'd', 'e', 'f', 'g', 'h', 'i', 'j', 'k', 'l', 'm', 'n', 'o', 'p', 'q', 'r',
        's', 't', 'u', 'v', 'w', 'x', 'y', 'z',
    ];
    assert(alphabet@ =~= key_alphabet());
    let mut rng = thread_rng();
    let mut key = String::new();
    let mut n: usize = 0;
    while n < KEY_LEN
        invariant
            alphabet@ == key_alphabet(),
            n <= KEY_LEN,
            key@.len() == n,
            forall|i: int| 0 <= i < key@.len() ==> key_alphabet().contains(#[trigger] key@[i]),
        decreases KEY_LEN - n,
    {
        let picked = choose_char(alphabet.as_slice(), &mut rng);
        let c = picked.unwrap();
        let ghost before = key@;
        push_char(&mut key, c);
        assert forall|i: int| 0 <= i < key@.len() implies key_alphabet().contains(#[trigger] key@[i]) by {
            if i < before.len() {
                assert(key@[i] == before[i]);
            }
        }
        n = n + 1;
    }
    key
}

/// The settings that the handlers read, each as configured, where it is.
pub struct Settings {
    pub link_len: Option<i64>,
    pub haas_url: Option<String>,
    pub haas_key: Option<String>,
    pub ping_timeout: Option<i64>,
    pub pre_shared_key: Option<String>,
    pub admin_name: Option<String>,
}

impl Settings {
    /// The length of new invitation links: 16 unless configured.
    pub open spec fn spec_link_len(&self) -> i64 {
        match self.link_len { Some(v) => v, None => 16 }
    }

    /// The number of seconds between two pings through one link: 300 unless configured.
    pub open spec fn spec_ping_timeout(&self) -> i64 {
        match self.ping_timeout { Some(v) => v, None => 300 }
    }

    /// The length of new invitation links: 16 unless configured.
    #[verifier::when_used_as_spec(spec_link_len)]
    pub fn link_len(&self) -> (r: i64)
        ensures
            r == self.spec_link_len(),
            self.link_len matches Some(v) ==> r == v,
            self.link_len is None ==> r == 16,
    {
        match self.link_len {
            Some(v) => v,
            None => 16,
        }
    }

    /// The number of seconds that must pass between two pings through one link:
    /// 300 unless configured.
    #[verifier::when_used_as_spec(spec_ping_timeout)]
    pub fn ping_timeout(&self) -> (r: i64)
        ensures
            r == self.spec_ping_timeout(),
            self.ping_timeout matches Some(v) ==> r == v,
            self.ping_timeout is None ==> r == 300,
    {
        match self.ping_timeout {
            Some(v) => v,
            None => 300,
        }
    }

    /// The address of the home automation server: `http://homeassistant.local:8123`
    /// unless configured.
    pub fn haas_url(&self) -> (r: String)
        ensures
            r@ == (match self.haas_url { Some(v) => v@, None => "http://homeassistant.local:8123"@ }),
    {
        match &self.haas_url {
            Some(v) => v.clone(),
            None => String::from_str("http://homeassistant.local:8123"),
        }
    }
}

/// The link length that the handlers use is the configured one, whatever its
/// value, and 16 only where none is configured.
pub proof fn law_link_len_is_configured(s: Settings, v: i64)
    ensures
        s.link_len == Some(v) ==> s.spec_link_len() == v,
        s.link_len is None ==> s.spec_link_len() == 16,
{
}

/// The ping timeout that the handlers use is the configured one, whatever its
/// value, and 300 seconds only where none is configured.
pub proof fn law_ping_timeout_is_configured(s: Settings, v: i64)
    ensures
        s.ping_timeout == Some(v) ==> s.spec_ping_timeout() == v,
        s.ping_timeout is None ==> s.spec_ping_timeout() == 300,
{
}

} // verus!
