//! The client-portal gateway surface that can be computed from plain
//! values: endpoint paths, query assembly and the websocket URL and
//! authentication message. Sending the requests and decoding the responses
//! is transport work and stays with the owning task.

use vstd::prelude::*;

use crate::pod::spec_join_comma;

verus! {

/// The decimal digit character for `d`.
pub open spec fn digit_char(d: int) -> char {
    if d == 0 {
        '0'
    } else if d == 1 {
        '1'
    } else if d == 2 {
        '2'
    } else if d == 3 {
        '3'
    } else if d == 4 {
        '4'
    } else if d == 5 {
        '5'
    } else if d == 6 {
        '6'
    } else if d == 7 {
        '7'
    } else if d == 8 {
        '8'
    } else {
        '9'
    }
}

/// The decimal rendering of `n`, most significant digit first, with no
/// leading zeros (and exactly "0" for zero).
pub open spec fn spec_u64_digits(n: u64) -> Seq<char>
    decreases n,
{
    if n < 10 {
        seq![digit_char(n as int)]
    } else {
        spec_u64_digits(n / 10) + seq![digit_char((n % 10) as int)]
    }
}

/// Append the single decimal digit `d` to `s`.
fn append_digit(s: &mut String, d: u64)
    requires
        d < 10,
    ensures
        final(s)@ == old(s)@ + seq![digit_char(d as int)],
{
    if d == 0 {
        s.append("0");
        proof {
            reveal_strlit("0");
            assert("0"@ =~= seq![digit_char(0)]);
        }
    } else if d == 1 {
        s.append("1");
        proof {
            reveal_strlit("1");
            assert("1"@ =~= seq![digit_char(1)]);
        }
    } else if d == 2 {
        s.append("2");
        proof {
            reveal_strlit("2");
            assert("2"@ =~= seq![digit_char(2)]);
        }
    } else if d == 3 {
        s.append("3");
        proof {
            reveal_strlit("3");
            assert("3"@ =~= seq![digit_char(3)]);
        }
    } else if d == 4 {
        s.append("4");
        proof {
            reveal_strlit("4");
            assert("4"@ =~= seq![digit_char(4)]);
        }
    } else if d == 5 {
        s.append("5");
        proof {
            reveal_strlit("5");
            assert("5"@ =~= seq![digit_char(5)]);
        }
    } else if d == 6 {
        s.append("6");
        proof {
            reveal_strlit("6");
            assert("6"@ =~= seq![digit_char(6)]);
        }
    } else if d == 7 {
        s.append("7");
        proof {
            reveal_strlit("7");
            assert("7"@ =~= seq![digit_char(7)]);
        }
    } else if d == 8 {
        s.append("8");
        proof {
            reveal_strlit("8");
            assert("8"@ =~= seq![digit_char(8)]);
        }
    } else {
        s.append("9");
        proof {
            reveal_strlit("9");
            assert("9"@ =~= seq![digit_char(9)]);
        }
    }
}

/// Append the decimal rendering of `n` to `s`.
fn append_u64(s: &mut String, n: u64)
    ensures
        final(s)@ == old(s)@ + spec_u64_digits(n),
    decreases n,
{
    if n >= 10 {
        append_u64(s, n / 10);
    }
    append_digit(s, n % 10);
    proof {
        if n >= 10 {
            assert(old(s)@ + spec_u64_digits(n / 10) + seq![digit_char((n % 10) as int)] =~= old(
                s,
            )@ + spec_u64_digits(n));
        } else {
            assert(old(s)@ + seq![digit_char((n % 10) as int)] =~= old(s)@ + spec_u64_digits(n));
        }
    }
}

/// The decimal rendering of `n` as a string.
pub fn u64_to_string(n: u64) -> (r: String)
    ensures
        r@ == spec_u64_digits(n),
{
    let mut s = String::new();
    append_u64(&mut s, n);
    proof {
        assert(Seq::<char>::empty() + spec_u64_digits(n) =~= spec_u64_digits(n));
    }
    s
}

/// Join `items` with commas, in order.
pub fn join_comma(items: &Vec<String>) -> (r: String)
    ensures
        r@ == spec_join_comma(items.deep_view()),
{
    let ghost ids = items.deep_view();
    let mut out = String::new();
    let n = items.len();
    let mut i: usize = 0;
    while i < n
        invariant
            i <= n,
            n == items@.len(),
            ids == items.deep_view(),
            out@ == spec_join_comma(ids.take(i as int)),
        decreases n - i,
    {
        if i > 0 {
            out.append(",");
            proof {
                reveal_strlit(",");
                assert(","@ =~= seq![',']);
            }
        }
        out.append(items[i].as_str());
        proof {
            assert(ids.take(i + 1).drop_last() =~= ids.take(i as int));
            assert(ids.take(i + 1).last() == ids[i as int]);
        }
        i += 1;
    }
    proof {
        assert(ids.take(n as int) =~= ids);
    }
    out
}

/// A string that can stand inside a JSON string literal verbatim: no
/// quote, no backslash, no control character.
pub open spec fn json_verbatim(s: Seq<char>) -> bool {
    forall|i: int| 0 <= i < s.len() ==> s[i] != '"' && s[i] != '\\' && (#[trigger] s[i]) as u32 >= 32
}

/// The hexadecimal digit character for `d`, in lower case.
pub open spec fn hex_char(d: int) -> char {
    if d < 10 {
        digit_char(d)
    } else if d == 10 {
        'a'
    } else if d == 11 {
        'b'
    } else if d == 12 {
        'c'
    } else if d == 13 {
        'd'
    } else if d == 14 {
        'e'
    } else {
        'f'
    }
}

/// The JSON string-literal escape of one character: quote and backslash are
/// backslash-escaped, the named control characters get their short escapes,
/// any other control character a lower-case `\u00..` escape, and everything
/// else stands as itself.
pub open spec fn json_escape_char(c: char) -> Seq<char> {
    if c == '"' {
        seq!['\\', '"']
    } else if c == '\\' {
        seq!['\\', '\\']
    } else if c == '\u{8}' {
        seq!['\\', 'b']
    } else if c == '\t' {
        seq!['\\', 't']
    } else if c == '\n' {
        seq!['\\', 'n']
    } else if c == '\u{c}' {
        seq!['\\', 'f']
    } else if c == '\r' {
        seq!['\\', 'r']
    } else if (c as u32) < 32 {
        seq![
            '\\',
            'u',
            '0',
            '0',
            hex_char(((c as u32) / 16) as int),
            hex_char(((c as u32) % 16) as int),
        ]
    } else {
        seq![c]
    }
}

/// The JSON string-literal escape of a whole string.
pub open spec fn json_escaped(s: Seq<char>) -> Seq<char>
    decreases s.len(),
{
    if s.len() == 0 {
        Seq::empty()
    } else {
        json_escaped(s.drop_last()) + json_escape_char(s.last())
    }
}

/// Law: a string with nothing to escape passes through the JSON escape
/// unchanged.
pub proof fn lemma_json_escape_verbatim(s: Seq<char>)
    requires
        json_verbatim(s),
    ensures
        json_escaped(s) == s,
    decreases s.len(),
{
    if s.len() > 0 {
        assert(json_verbatim(s.drop_last())) by {
            assert(forall|i: int|
                0 <= i < s.drop_last().len() ==> #[trigger] s.drop_last()[i] == s[i]);
        }
        lemma_json_escape_verbatim(s.drop_last());
        assert(s[s.len() - 1] as u32 >= 32);
        assert(json_escape_char(s.last()) =~= seq![s.last()]);
        assert(json_escaped(s) =~= s);
    } else {
        assert(json_escaped(s) =~= s);
    }
}

/// Append the hexadecimal digit `d` to `s`, in lower case.
fn append_hex_digit(s: &mut String, d: u64)
    requires
        d < 16,
    ensures
        final(s)@ == old(s)@ + seq![hex_char(d as int)],
{
    if d < 10 {
        append_digit(s, d);
    } else if d == 10 {
        s.append("a");
        proof {
            reveal_strlit("a");
            assert("a"@ =~= seq![hex_char(10)]);
        }
    } else if d == 11 {
        s.append("b");
        proof {
            reveal_strlit("b");
            assert("b"@ =~= seq![hex_char(11)]);
        }
    } else if d == 12 {
        s.append("c");
        proof {
            reveal_strlit("c");
            assert("c"@ =~= seq![hex_char(12)]);
        }
    } else if d == 13 {
        s.append("d");
        proof {
            reveal_strlit("d");
            assert("d"@ =~= seq![hex_char(13)]);
        }
    } else if d == 14 {
        s.append("e");
        proof {
            reveal_strlit("e");
            assert("e"@ =~= seq![hex_char(14)]);
        }
    } else {
        s.append("f");
        proof {
            reveal_strlit("f");
            assert("f"@ =~= seq![hex_char(15)]);
        }
    }
}

/// Append the JSON string-literal escape of `s` to `out`.
fn append_json_escaped(out: &mut String, s: &str)
    ensures
        final(out)@ == old(out)@ + json_escaped(s@),
{
    let n = s.unicode_len();
    let mut i: usize = 0;
    while i < n
        invariant
            i <= n,
            n == s@.len(),
            out@ == old(out)@ + json_escaped(s@.take(i as int)),
        decreases n - i,
    {
        let c = s.get_char(i);
        if c == '"' {
            out.append("\\\"");
            proof {
                reveal_strlit("\\\"");
                assert("\\\""@ =~= json_escape_char(c));
            }
        } else if c == '\\' {
            out.append("\\\\");
            proof {
                reveal_strlit("\\\\");
                assert("\\\\"@ =~= json_escape_char(c));
            }
        } else if c == '\u{8}' {
            out.append("\\b");
            proof {
                reveal_strlit("\\b");
                assert("\\b"@ =~= json_escape_char(c));
            }
        } else if c == '\t' {
            out.append("\\t");
            proof {
                reveal_strlit("\\t");
                assert("\\t"@ =~= json_escape_char(c));
            }
        } else if c == '\n' {
            out.append("\\n");
            proof {
                reveal_strlit("\\n");
                assert("\\n"@ =~= json_escape_char(c));
            }
        } else if c == '\u{c}' {
            out.append("\\f");
            proof {
                reveal_strlit("\\f");
                assert("\\f"@ =~= json_escape_char(c));
            }
        } else if c == '\r' {
            out.append("\\r");
            proof {
                reveal_strlit("\\r");
                assert("\\r"@ =~= json_escape_char(c));
            }
        } else if (c as u32) < 32 {
            out.append("\\u00");
            proof {
                reveal_strlit("\\u00");
            }
            let code: u32 = c as u32;
            append_hex_digit(out, (code / 16) as u64);
            append_hex_digit(out, (code % 16) as u64);
            proof {
                assert(("\\u00"@ + seq![hex_char((code / 16) as int)]) + seq![
                    hex_char((code % 16) as int),
                ] =~= json_escape_char(c));
            }
        } else {
            let piece = s.substring_char(i, i + 1);
            out.append(piece);
            proof {
                assert(piece@ =~= seq![c]);
                assert(seq![c] =~= json_escape_char(c));
            }
        }
        proof {
            assert(s@.take(i + 1).drop_last() =~= s@.take(i as int));
            assert(s@.take(i + 1).last() == s@[i as int]);
            assert(out@ =~= old(out)@ + json_escaped(s@.take(i + 1)));
        }
        i += 1;
    }
    proof {
        assert(s@.take(n as int) =~= s@);
    }
}

/// The view of a built query list: each pair's key and value.
pub open spec fn query_pairs_view(q: Seq<(String, String)>) -> Seq<(Seq<char>, Seq<char>)> {
    q.map_values(|p: (String, String)| (p.0@, p.1@))
}

/// The view of an optional string.
pub open spec fn opt_view(o: Option<String>) -> Option<Seq<char>> {
    match o {
        Option::Some(s) => Option::Some(s@),
        Option::None => Option::None,
    }
}

/// The query of an option-chain lookup: the underlying contract and the
/// security type, then the month, exchange and strike filters that were
/// given, in that order.
pub open spec fn spec_options_query(
    conid: u64,
    sectype: Seq<char>,
    month: Option<Seq<char>>,
    exchange: Option<Seq<char>>,
    strike: Option<Seq<char>>,
) -> Seq<(Seq<char>, Seq<char>)> {
    let base = seq![("conid"@, spec_u64_digits(conid)), ("sectype"@, sectype)];
    let with_month = match month {
        Option::Some(m) => base.push(("month"@, m)),
        Option::None => base,
    };
    let with_exchange = match exchange {
        Option::Some(e) => with_month.push(("exchange"@, e)),
        Option::None => with_month,
    };
    match strike {
        Option::Some(st) => with_exchange.push(("strike"@, st)),
        Option::None => with_exchange,
    }
}

/// The gateway client's addressing state: which account, which host, and
/// whether the websocket listens over TLS.
pub struct IBClientPortal {
    pub account: String,
    pub host: String,
    pub listen_ssl: bool,
}

impl IBClientPortal {
    /// A client for `account` against the gateway at `host`.
    pub fn new(account: String, host: String, listen_ssl: bool) -> (res: Self)
        ensures
            res.account@ == account@,
            res.host@ == host@,
            res.listen_ssl == listen_ssl,
    {
        IBClientPortal { account, host, listen_ssl }
    }

    /// The gateway URL for an endpoint `path`.
    pub fn get_url(&self, path: &str) -> (r: String)
        ensures
            r@ == "https://"@ + self.host@ + "/v1/api"@ + path@,
    {
        let mut url = "https://".to_owned();
        url.append(self.host.as_str());
        url.append("/v1/api");
        url.append(path);
        url
    }

    /// The streaming websocket URL, over TLS exactly when `listen_ssl`.
    pub fn get_ws_url(&self) -> (r: String)
        ensures
            r@ == (if self.listen_ssl {
                "wss"@
            } else {
                "ws"@
            }) + "://"@ + self.host@ + "/v1/api/ws"@,
    {
        let mut url = if self.listen_ssl {
            "wss".to_owned()
        } else {
            "ws".to_owned()
        };
        url.append("://");
        url.append(self.host.as_str());
        url.append("/v1/api/ws");
        url
    }

    /// The websocket authentication message carrying the session token,
    /// JSON-escaped.
    pub fn ws_auth_msg(&self, session: String) -> (r: String)
        ensures
            r@ == "{\"session\":\""@ + json_escaped(session@) + "\"}"@,
            json_verbatim(session@) ==> r@ == "{\"session\":\""@ + session@ + "\"}"@,
    {
        let mut msg = "{\"session\":\"".to_owned();
        append_json_escaped(&mut msg, session.as_str());
        msg.append("\"}");
        proof {
            if json_verbatim(session@) {
                lemma_json_escape_verbatim(session@);
            }
        }
        msg
    }

    /// The endpoint path listing one page of the account's positions.
    pub fn get_positions_path(&self, page: u64) -> (r: String)
        ensures
            r@ == "/portfolio/"@ + self.account@ + "/positions/"@ + spec_u64_digits(page),
    {
        let mut path = "/portfolio/".to_owned();
        path.append(self.account.as_str());
        path.append("/positions/");
        append_u64(&mut path, page);
        path
    }

    /// The endpoint path for the account's ledger.
    pub fn get_account_ledger_path(&self) -> (r: String)
        ensures
            r@ == "/portfolio/"@ + self.account@ + "/ledger"@,
    {
        let mut path = "/portfolio/".to_owned();
        path.append(self.account.as_str());
        path.append("/ledger");
        path
    }

    /// The endpoint path for placing orders on the account.
    pub fn place_order_path(&self) -> (r: String)
        ensures
            r@ == "/iserver/account/"@ + self.account@ + "/order"@,
    {
        let mut path = "/iserver/account/".to_owned();
        path.append(self.account.as_str());
        path.append("/order");
        path
    }

    /// The endpoint path for one contract's detail.
    pub fn get_contract_detail_path(&self, conid: u64) -> (r: String)
        ensures
            r@ == "/iserver/contract/"@ + spec_u64_digits(conid) + "/info"@,
    {
        let mut path = "/iserver/contract/".to_owned();
        append_u64(&mut path, conid);
        path.append("/info");
        path
    }

    /// The query pairs of a market-data snapshot request: the contract
    /// identifiers and the fields joined with commas, plus the optional
    /// since-timestamp.
    pub fn market_data_query(
        &self,
        conids: &Vec<String>,
        fields: &Vec<String>,
        since: Option<u64>,
    ) -> (q: Vec<(String, String)>)
        ensures
            q@.len() == (if since is Some {
                3int
            } else {
                2int
            }),
            q@[0].0@ == "conids"@ && q@[0].1@ == spec_join_comma(conids.deep_view()),
            q@[1].0@ == "fields"@ && q@[1].1@ == spec_join_comma(fields.deep_view()),
            since matches Some(s) ==> q@[2].0@ == "since"@ && q@[2].1@ == spec_u64_digits(s),
    {
        let mut q: Vec<(String, String)> = Vec::new();
        q.push(("conids".to_owned(), join_comma(conids)));
        q.push(("fields".to_owned(), join_comma(fields)));
        if let Option::Some(s) = since {
            q.push(("since".to_owned(), u64_to_string(s)));
        }
        q
    }

    /// The query of an option-chain lookup. The strike filter arrives
    /// already rendered, since only the broker's number type can render it.
    pub fn get_options_query(
        &self,
        underlying_con_id: u64,
        sectype: &String,
        month: Option<String>,
        exchange: Option<String>,
        strike: Option<String>,
    ) -> (q: Vec<(String, String)>)
        ensures
            query_pairs_view(q@) == spec_options_query(
                underlying_con_id,
                sectype@,
                opt_view(month),
                opt_view(exchange),
                opt_view(strike),
            ),
    {
        let ghost expected = spec_options_query(
            underlying_con_id,
            sectype@,
            opt_view(month),
            opt_view(exchange),
            opt_view(strike),
        );
        let mut q: Vec<(String, String)> = Vec::new();
        q.push(("conid".to_owned(), u64_to_string(underlying_con_id)));
        q.push(("sectype".to_owned(), sectype.clone()));
        if let Option::Some(m) = month {
            q.push(("month".to_owned(), m));
        }
        if let Option::Some(e) = exchange {
            q.push(("exchange".to_owned(), e));
        }
        if let Option::Some(st) = strike {
            q.push(("strike".to_owned(), st));
        }
        proof {
            assert(query_pairs_view(q@) =~= expected);
        }
        q
    }

    /// The query of a market-data-history request: always all six pairs, an
    /// absent exchange or start time as the empty string, and the
    /// regular-trading-hours flag rendered as "true" or "false". The start
    /// time arrives already formatted, since formatting a wall-clock moment
    /// is the calendar library's work.
    pub fn get_market_data_history_query(
        &self,
        conid: u64,
        exchange: Option<String>,
        period: &String,
        bar: &String,
        outside_rth: bool,
        start_time_text: Option<String>,
    ) -> (q: Vec<(String, String)>)
        ensures
            q@.len() == 6,
            q@[0].0@ == "conid"@ && q@[0].1@ == spec_u64_digits(conid),
            q@[1].0@ == "period"@ && q@[1].1@ == period@,
            q@[2].0@ == "bar"@ && q@[2].1@ == bar@,
            q@[3].0@ == "exchange"@ && q@[3].1@ == (match exchange {
                Option::Some(e) => e@,
                Option::None => Seq::<char>::empty(),
            }),
            q@[4].0@ == "outsideRth"@ && q@[4].1@ == (if outside_rth {
                "true"@
            } else {
                "false"@
            }),
            q@[5].0@ == "startTime"@ && q@[5].1@ == (match start_time_text {
                Option::Some(t) => t@,
                Option::None => Seq::<char>::empty(),
            }),
    {
        let mut q: Vec<(String, String)> = Vec::new();
        q.push(("conid".to_owned(), u64_to_string(conid)));
        q.push(("period".to_owned(), period.clone()));
        q.push(("bar".to_owned(), bar.clone()));
        let exchange_value = match exchange {
            Option::Some(e) => e,
            Option::None => String::new(),
        };
        q.push(("exchange".to_owned(), exchange_value));
        let rth_value = if outside_rth {
            "true".to_owned()
        } else {
            "false".to_owned()
        };
        q.push(("outsideRth".to_owned(), rth_value));
        let start_value = match start_time_text {
            Option::Some(t) => t,
            Option::None => String::new(),
        };
        q.push(("startTime".to_owned(), start_value));
        q
    }
}

} // verus!
