//! What the service sends to the platform and to the downstream bot.
use vstd::prelude::*;

use crate::structs::{
    CreateTwitchEventsub, EventsubCondition, EventsubTransportData, EventsubType, StreamData,
};

verus! {

pub open spec fn digit(d: nat) -> char {
    if d == 0 {
        '0'
    } else if d == 1 {
        '1'
    } else if d == 2 {
        '2'
    } else if d == 3 {
        '3'
    } else if d == 4 {
        '4'
    } else if d == 5 {
        '5'
    } else if d == 6 {
        '6'
    } else if d == 7 {
        '7'
    } else if d == 8 {
        '8'
    } else {
        '9'
    }
}

/// Decimal digits of `n`, most significant first, without leading zeros.
pub open spec fn digits(n: nat) -> Seq<char>
    decreases n,
{
    if n < 10 {
        seq![digit(n)]
    } else {
        digits(n / 10).push(digit(n % 10))
    }
}

/// Decimal text of `n`, with a leading `-` when negative.
pub open spec fn decimal(n: int) -> Seq<char> {
    if n < 0 {
        seq!['-'] + digits((-n) as nat)
    } else {
        digits(n as nat)
    }
}

fn digit_str(d: u64) -> (r: &'static str)
    requires
        d < 10,
    ensures
        r@ == seq![digit(d as nat)],
{
    proof {
        reveal_strlit("0");
        reveal_strlit("1");
        reveal_strlit("2");
        reveal_strlit("3");
        reveal_strlit("4");
        reveal_strlit("5");
        reveal_strlit("6");
        reveal_strlit("7");
        reveal_strlit("8");
        reveal_strlit("9");
    }
    if d == 0 {
        "0"
    } else if d == 1 {
        "1"
    } else if d == 2 {
        "2"
    } else if d == 3 {
        "3"
    } else if d == 4 {
        "4"
    } else if d == 5 {
        "5"
    } else if d == 6 {
        "6"
    } else if d == 7 {
        "7"
    } else if d == 8 {
        "8"
    } else {
        "9"
    }
}

fn push_digits(out: &mut String, n: u64)
    ensures
        final(out)@ == old(out)@ + digits(n as nat),
    decreases n,
{
    if n >= 10 {
        push_digits(out, n / 10);
    }
    out.append(digit_str(n % 10));
    proof {
        if n >= 10 {
            assert(digits(n as nat) == digits((n / 10) as nat).push(digit((n % 10) as nat)));
        }
        assert(old(out)@ + digits(n as nat) =~= final(out)@);
    }
}

/// The decimal text of `n`.
pub fn decimal_string(n: i64) -> (r: String)
    ensures
        r@ == decimal(n as int),
{
    let mut out = String::new();
    if n < 0 {
        out.append("-");
        proof {
            reveal_strlit("-");
        }
        let magnitude = (-(n as i128)) as u64;
        push_digits(&mut out, magnitude);
    } else {
        push_digits(&mut out, n as u64);
    }
    out
}

/// A list of name/value pairs as text.
pub open spec fn pairs_view(v: Seq<(String, String)>) -> Seq<(Seq<char>, Seq<char>)> {
    Seq::new(v.len(), |i: int| (v[i].0@, v[i].1@))
}

/// Query parameters of the notification sent to the bot for a live stream.
pub open spec fn bot_query_spec(stream: StreamData) -> Seq<(Seq<char>, Seq<char>)> {
    seq![
        ("stream_id"@, decimal(stream.id as int)),
        ("user_id"@, decimal(stream.user_id as int)),
        ("user_name"@, stream.user_login@),
        ("game_name"@, stream.game_name@),
        ("viewer_count"@, decimal(stream.viewer_count as int)),
        ("started_at"@, stream.started_at@),
        ("thumbnail_url"@, stream.thumbnail_url@),
        ("title"@, stream.title@),
    ]
}

fn pair(name: &str, value: String) -> (r: (String, String))
    ensures
        r.0@ == name@,
        r.1@ == value@,
{
    (String::from_str(name), value)
}

/// The query parameters of the notification for the bot.
pub fn bot_query(stream: &StreamData) -> (r: Vec<(String, String)>)
    ensures
        pairs_view(r@) == bot_query_spec(*stream),
{
    let mut q: Vec<(String, String)> = Vec::new();
    q.push(pair("stream_id", decimal_string(stream.id as i64)));
    q.push(pair("user_id", decimal_string(stream.user_id as i64)));
    q.push(pair("user_name", stream.user_login.clone()));
    q.push(pair("game_name", stream.game_name.clone()));
    q.push(pair("viewer_count", decimal_string(stream.viewer_count as i64)));
    q.push(pair("started_at", stream.started_at.clone()));
    q.push(pair("thumbnail_url", stream.thumbnail_url.clone()));
    q.push(pair("title", stream.title.clone()));
    assert(pairs_view(q@) =~= bot_query_spec(*stream));
    q
}

/// Client credentials and callback settings of this service.
#[derive(Clone, Debug, PartialEq, Eq)]
pub struct TwitchState {
    pub client_id: String,
    pub client_secret: String,
    pub redirect_url: String,
    pub callback_url: String,
    pub eventsub_secret: String,
}

impl TwitchState {
    /// Form of the client-credentials token exchange.
    pub fn app_token_form(&self) -> (r: Vec<(String, String)>)
        ensures
            pairs_view(r@) == seq![
                ("client_id"@, self.client_id@),
                ("client_secret"@, self.client_secret@),
                ("grant_type"@, "client_credentials"@),
            ],
    {
        let mut f: Vec<(String, String)> = Vec::new();
        f.push(pair("client_id", self.client_id.clone()));
        f.push(pair("client_secret", self.client_secret.clone()));
        f.push(pair("grant_type", String::from_str("client_credentials")));
        assert(pairs_view(f@) =~= seq![
            ("client_id"@, self.client_id@),
            ("client_secret"@, self.client_secret@),
            ("grant_type"@, "client_credentials"@),
        ]);
        f
    }

    /// Form of the authorization-code token exchange.
    pub fn user_token_form(&self, code: &str) -> (r: Vec<(String, String)>)
        ensures
            pairs_view(r@) == seq![
                ("client_id"@, self.client_id@),
                ("client_secret"@, self.client_secret@),
                ("redirect_uri"@, self.redirect_url@),
                ("grant_type"@, "authorization_code"@),
                ("code"@, code@),
            ],
    {
        let mut f: Vec<(String, String)> = Vec::new();
        f.push(pair("client_id", self.client_id.clone()));
        f.push(pair("client_secret", self.client_secret.clone()));
        f.push(pair("redirect_uri", self.redirect_url.clone()));
        f.push(pair("grant_type", String::from_str("authorization_code")));
        f.push(pair("code", String::from_str(code)));
        assert(pairs_view(f@) =~= seq![
            ("client_id"@, self.client_id@),
            ("client_secret"@, self.client_secret@),
            ("redirect_uri"@, self.redirect_url@),
            ("grant_type"@, "authorization_code"@),
            ("code"@, code@),
        ]);
        f
    }

    /// Body of the request that subscribes to `user_id` going live, with
    /// this service's callback and secret.
    pub fn subscription_request(&self, user_id: i32) -> (r: CreateTwitchEventsub)
        ensures
            r.event_type == EventsubType::StreamOnline,
            r.version@ == "1"@,
            r.condition.broadcaster_user_id@ == decimal(user_id as int),
            r.transport.method@ == "webhook"@,
            r.transport.callback@ == self.callback_url@,
            r.transport.secret is Some,
            r.transport.secret->Some_0@ == self.eventsub_secret@,
    {
        CreateTwitchEventsub {
            event_type: EventsubType::StreamOnline,
            version: String::from_str("1"),
            condition: EventsubCondition { broadcaster_user_id: decimal_string(user_id as i64) },
            transport: EventsubTransportData {
                method: String::from_str("webhook"),
                callback: self.callback_url.clone(),
                secret: Some(self.eventsub_secret.clone()),
            },
        }
    }

    /// Where a user is sent to authorize this service; `state` comes back
    /// with the redirect.
    pub fn login_url(&self, state: &str) -> (r: String)
        ensures
            r@ == "https://id.twitch.tv/oauth2/authorize?response_type=code&client_id="@
                + self.client_id@ + "&redirect_uri="@ + self.redirect_url@
                + "&scope=user:read:email&state="@ + state@,
    {
        let mut url = String::from_str(
            "https://id.twitch.tv/oauth2/authorize?response_type=code&client_id=",
        );
        url.append(self.client_id.as_str());
        url.append("&redirect_uri=");
        url.append(self.redirect_url.as_str());
        url.append("&scope=user:read:email&state=");
        url.append(state);
        url
    }
}

} // verus!
