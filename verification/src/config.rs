use vstd::prelude::*;
use vstd::string::{StrSliceExecFns, StringExecFns};

verus! {

// The stored configuration: the node's URL, the commitment level, and the
// path of the key file. The interactive editing loops live outside; every
// decision they take — which preset a menu choice names, what the stored
// text means, what text a configuration stores as — is decided here.

/// The preset node endpoints.
pub fn devnet_rpc() -> (r: &'static str)
    ensures
        r@ == "https://api.devnet.solana.com"@,
{
    "https://api.devnet.solana.com"
}

pub fn mainnet_rpc() -> (r: &'static str)
    ensures
        r@ == "https://api.mainnet-beta.solana.com"@,
{
    "https://api.mainnet-beta.solana.com"
}

pub fn testnet_rpc() -> (r: &'static str)
    ensures
        r@ == "https://api.testnet.solana.com"@,
{
    "https://api.testnet.solana.com"
}

/// How final a block must be before the node reports it.
#[derive(Debug)]
pub enum CommitmentLevel {
    Processed,
    Confirmed,
    Finalized,
}

pub open spec fn commitment_text_spec(level: CommitmentLevel) -> Seq<char> {
    match level {
        CommitmentLevel::Processed => "processed"@,
        CommitmentLevel::Confirmed => "confirmed"@,
        CommitmentLevel::Finalized => "finalized"@,
    }
}

impl CommitmentLevel {
    /// The level's stored name.
    pub fn as_str(&self) -> (r: &'static str)
        ensures
            r@ == commitment_text_spec(*self),
    {
        match self {
            CommitmentLevel::Processed => "processed",
            CommitmentLevel::Confirmed => "confirmed",
            CommitmentLevel::Finalized => "finalized",
        }
    }
}

/// The stored configuration.
#[derive(Debug)]
pub struct ScillaConfig {
    pub rpc_url: String,
    pub commitment_level: CommitmentLevel,
    pub keypair_path: String,
}

#[verifier::ext_equal]
pub struct ScillaConfigModel {
    pub rpc_url: Seq<char>,
    pub commitment_level: CommitmentLevel,
    pub keypair_path: Seq<char>,
}

impl View for ScillaConfig {
    type V = ScillaConfigModel;

    open spec fn view(&self) -> ScillaConfigModel {
        ScillaConfigModel {
            rpc_url: self.rpc_url@,
            commitment_level: self.commitment_level,
            keypair_path: self.keypair_path@,
        }
    }
}

/// The text a configuration stores as: one `key = "value"` line per field.
pub open spec fn render_config_spec(c: ScillaConfigModel) -> Seq<char> {
    "rpc_url = \""@ + c.rpc_url + "\"\ncommitment_level = \""@ + commitment_text_spec(
        c.commitment_level,
    ) + "\"\nkeypair_path = \""@ + c.keypair_path + "\"\n"@
}

/// Renders a configuration to its stored text: exactly
/// `render_config_spec`.
pub fn render_config(c: &ScillaConfig) -> (r: String)
    ensures
        r@ == render_config_spec(c@),
{
    let mut out = String::new();
    out.append("rpc_url = \"");
    out.append(c.rpc_url.as_str());
    out.append("\"\ncommitment_level = \"");
    out.append(c.commitment_level.as_str());
    out.append("\"\nkeypair_path = \"");
    out.append(c.keypair_path.as_str());
    out.append("\"\n");
    proof {
        assert(out@ =~= render_config_spec(c@));
    }
    out
}

/// Why stored configuration text was rejected.
#[derive(Debug)]
pub enum ConfigError {
    /// The text is not in the stored shape.
    Malformed,
    /// The commitment level names no known level.
    UnknownCommitment,
}

/// Whether `text` carries `lit` at character position `pos`.
fn expect_lit(text: &str, pos: usize, lit: &str) -> (r: bool)
    requires
        pos <= text@.len(),
    ensures
        r == (pos + lit@.len() <= text@.len() && text@.subrange(pos as int, pos + lit@.len())
            == lit@),
{
    let n = text.unicode_len();
    let m = lit.unicode_len();
    if m > n - pos {
        return false;
    }
    let mut j: usize = 0;
    while j < m
        invariant
            j <= m,
            pos + m <= n,
            n == text@.len(),
            m == lit@.len(),
            forall|k: int| 0 <= k < j ==> text@[pos + k] == lit@[k],
        decreases m - j,
    {
        if text.get_char(pos + j) != lit.get_char(j) {
            proof {
                assert(text@.subrange(pos as int, pos + lit@.len())[j as int] != lit@[j as int]);
            }
            return false;
        }
        j += 1;
    }
    proof {
        assert(text@.subrange(pos as int, pos + lit@.len()) =~= lit@);
    }
    true
}

/// The position of the first double quote at or after `pos`, if any.
fn find_quote(text: &str, pos: usize) -> (r: Option<usize>)
    requires
        pos <= text@.len(),
    ensures
        r matches Some(q) ==> pos <= q < text@.len() && text@[q as int] == '"' && forall|j: int|
            pos <= j < q ==> text@[j] != '"',
        r is None ==> forall|j: int| pos <= j < text@.len() ==> text@[j] != '"',
{
    let n = text.unicode_len();
    let mut i: usize = pos;
    while i < n
        invariant
            pos <= i <= n,
            n == text@.len(),
            forall|j: int| pos <= j < i ==> text@[j] != '"',
        decreases n - i,
    {
        if text.get_char(i) == '"' {
            return Some(i);
        }
        i += 1;
    }
    None
}

/// No double quote anywhere: such a value survives the stored shape.
pub open spec fn quote_free(s: Seq<char>) -> bool {
    forall|i: int| 0 <= i < s.len() ==> #[trigger] s[i] != '"'
}

/// A configuration the stored text shape can carry.
pub open spec fn storable(c: ScillaConfigModel) -> bool {
    quote_free(c.rpc_url) && quote_free(c.keypair_path)
}

proof fn lemma_commitment_text_quote_free(level: CommitmentLevel)
    ensures
        commitment_text_spec(level).len() == 9,
        quote_free(commitment_text_spec(level)),
{
    reveal_strlit("processed");
    reveal_strlit("confirmed");
    reveal_strlit("finalized");
    let name = commitment_text_spec(level);
    assert forall|i: int| 0 <= i < name.len() implies #[trigger] name[i] != '"' by {
        if i == 0 {
        } else if i == 1 {
        } else if i == 2 {
        } else if i == 3 {
        } else if i == 4 {
        } else if i == 5 {
        } else if i == 6 {
        } else if i == 7 {
        } else {
            assert(i == 8);
        }
    }
}

/// Where each part of a rendered configuration stands in its text: the four
/// fixed fragments, the two values, and the level name, tiled end to end.
proof fn lemma_render_layout(c: ScillaConfigModel)
    ensures
        ({
            let text = render_config_spec(c);
            let u = c.rpc_url.len() as int;
            let p = c.keypair_path.len() as int;
            &&& text.len() == 62 + u + p
            &&& text.subrange(0, 11) == "rpc_url = \""@
            &&& text.subrange(11, 11 + u) == c.rpc_url
            &&& text.subrange(11 + u, 33 + u) == "\"\ncommitment_level = \""@
            &&& text.subrange(33 + u, 42 + u) == commitment_text_spec(c.commitment_level)
            &&& text.subrange(42 + u, 60 + u) == "\"\nkeypair_path = \""@
            &&& text.subrange(60 + u, 60 + u + p) == c.keypair_path
            &&& text.subrange(60 + u + p, 62 + u + p) == "\"\n"@
        }),
{
    reveal_strlit("rpc_url = \"");
    reveal_strlit("\"\ncommitment_level = \"");
    reveal_strlit("\"\nkeypair_path = \"");
    reveal_strlit("\"\n");
    lemma_commitment_text_quote_free(c.commitment_level);
    let text = render_config_spec(c);
    let u = c.rpc_url.len() as int;
    let p = c.keypair_path.len() as int;
    assert(text.subrange(0, 11) =~= "rpc_url = \""@);
    assert(text.subrange(11, 11 + u) =~= c.rpc_url);
    assert(text.subrange(11 + u, 33 + u) =~= "\"\ncommitment_level = \""@);
    assert(text.subrange(33 + u, 42 + u) =~= commitment_text_spec(c.commitment_level));
    assert(text.subrange(42 + u, 60 + u) =~= "\"\nkeypair_path = \""@);
    assert(text.subrange(60 + u, 60 + u + p) =~= c.keypair_path);
    assert(text.subrange(60 + u + p, 62 + u + p) =~= "\"\n"@);
}

/// The quote positions of a rendered storable configuration: exactly the
/// delimiters, never inside a value or the level name.
proof fn lemma_render_quotes(c: ScillaConfigModel)
    requires
        storable(c),
    ensures
        ({
            let text = render_config_spec(c);
            let u = c.rpc_url.len() as int;
            let p = c.keypair_path.len() as int;
            &&& text.len() == 62 + u + p
            &&& text.subrange(0, 11) == "rpc_url = \""@
            &&& text.subrange(11 + u, 33 + u) == "\"\ncommitment_level = \""@
            &&& text.subrange(33 + u, 42 + u) == commitment_text_spec(c.commitment_level)
            &&& text.subrange(42 + u, 60 + u) == "\"\nkeypair_path = \""@
            &&& text.subrange(60 + u + p, 62 + u + p) == "\"\n"@
            &&& text[11 + u] == '"'
            &&& text[42 + u] == '"'
            &&& text[60 + u + p] == '"'
            &&& forall|j: int| 11 <= j < 11 + u ==> #[trigger] text[j] != '"'
            &&& forall|j: int| 33 + u <= j < 42 + u ==> #[trigger] text[j] != '"'
            &&& forall|j: int| 60 + u <= j < 60 + u + p ==> #[trigger] text[j] != '"'
        }),
{
    reveal_strlit("\"\ncommitment_level = \"");
    reveal_strlit("\"\nkeypair_path = \"");
    reveal_strlit("\"\n");
    lemma_render_layout(c);
    lemma_commitment_text_quote_free(c.commitment_level);
    let text = render_config_spec(c);
    let u = c.rpc_url.len() as int;
    let p = c.keypair_path.len() as int;
    assert(text[11 + u] == text.subrange(11 + u, 33 + u)[0]);
    assert(text[42 + u] == text.subrange(42 + u, 60 + u)[0]);
    assert(text[60 + u + p] == text.subrange(60 + u + p, 62 + u + p)[0]);
    assert forall|j: int| 11 <= j < 11 + u implies #[trigger] text[j] != '"' by {
        assert(text[j] == text.subrange(11, 11 + u)[j - 11]);
        assert(c.rpc_url[j - 11] != '"');
    }
    assert forall|j: int| 33 + u <= j < 42 + u implies #[trigger] text[j] != '"' by {
        assert(text[j] == text.subrange(33 + u, 42 + u)[j - 33 - u]);
        assert(commitment_text_spec(c.commitment_level)[j - 33 - u] != '"');
    }
    assert forall|j: int| 60 + u <= j < 60 + u + p implies #[trigger] text[j] != '"' by {
        assert(text[j] == text.subrange(60 + u, 60 + u + p)[j - 60 - u]);
        assert(c.keypair_path[j - 60 - u] != '"');
    }
}

/// Reads stored configuration text back. Sound and complete for the stored
/// shape: on success the text is exactly what the returned configuration
/// renders to, and on failure no storable configuration renders to it.
#[verifier::rlimit(60)]
pub fn parse_config(text: &str) -> (r: Result<ScillaConfig, ConfigError>)
    ensures
        r matches Ok(c) ==> text@ == render_config_spec(c@) && storable(c@),
        r is Err ==> forall|c: ScillaConfigModel|
            storable(c) ==> text@ != render_config_spec(c),
{
    proof {
        reveal_strlit("rpc_url = \"");
        reveal_strlit("\"\ncommitment_level = \"");
        reveal_strlit("\"\nkeypair_path = \"");
        reveal_strlit("\"\n");
        reveal_strlit("processed");
        reveal_strlit("confirmed");
        reveal_strlit("finalized");
    }
    let n = text.unicode_len();
    let lit1 = "rpc_url = \"";
    let lit2 = "\"\ncommitment_level = \"";
    let lit3 = "\"\nkeypair_path = \"";
    let lit4 = "\"\n";
    if !expect_lit(text, 0, lit1) {
        proof {
            assert forall|c: ScillaConfigModel|
                storable(c) implies text@ != render_config_spec(c) by {
                if text@ == render_config_spec(c) {
                    lemma_render_quotes(c);
                }
            }
        }
        return Err(ConfigError::Malformed);
    }
    let p1 = lit1.unicode_len();
    let q1 = match find_quote(text, p1) {
        Some(q) => q,
        None => {
            proof {
                assert forall|c: ScillaConfigModel|
                    storable(c) implies text@ != render_config_spec(c) by {
                    if text@ == render_config_spec(c) {
                        lemma_render_quotes(c);
                        let u = c.rpc_url.len() as int;
                        assert(text@[11 + u] == '"');
                    }
                }
            }
            return Err(ConfigError::Malformed);
        },
    };
    let rpc_url = text.substring_char(p1, q1).to_owned();
    if !expect_lit(text, q1, lit2) {
        proof {
            assert forall|c: ScillaConfigModel|
                storable(c) implies text@ != render_config_spec(c) by {
                if text@ == render_config_spec(c) {
                    lemma_render_quotes(c);
                    let u = c.rpc_url.len() as int;
                    assert(q1 == 11 + u);
                }
            }
        }
        return Err(ConfigError::Malformed);
    }
    let p2 = q1 + lit2.unicode_len();
    let q2 = match find_quote(text, p2) {
        Some(q) => q,
        None => {
            proof {
                assert forall|c: ScillaConfigModel|
                    storable(c) implies text@ != render_config_spec(c) by {
                    if text@ == render_config_spec(c) {
                        lemma_render_quotes(c);
                        let u = c.rpc_url.len() as int;
                        assert(q1 == 11 + u);
                        assert(text@[42 + u] == '"');
                    }
                }
            }
            return Err(ConfigError::Malformed);
        },
    };
    let commitment_level = if expect_lit(text, p2, "processed") && q2 - p2 == 9 {
        CommitmentLevel::Processed
    } else if expect_lit(text, p2, "confirmed") && q2 - p2 == 9 {
        CommitmentLevel::Confirmed
    } else if expect_lit(text, p2, "finalized") && q2 - p2 == 9 {
        CommitmentLevel::Finalized
    } else {
        proof {
            assert forall|c: ScillaConfigModel|
                storable(c) implies text@ != render_config_spec(c) by {
                if text@ == render_config_spec(c) {
                    lemma_render_quotes(c);
                    let u = c.rpc_url.len() as int;
                    assert(q1 == 11 + u);
                    assert(p2 == 33 + u);
                    assert(q2 == 42 + u);
                    match c.commitment_level {
                        CommitmentLevel::Processed => {
                            assert(text@.subrange(p2 as int, p2 + 9) == "processed"@);
                        },
                        CommitmentLevel::Confirmed => {
                            assert(text@.subrange(p2 as int, p2 + 9) == "confirmed"@);
                        },
                        CommitmentLevel::Finalized => {
                            assert(text@.subrange(p2 as int, p2 + 9) == "finalized"@);
                        },
                    }
                }
            }
        }
        return Err(ConfigError::UnknownCommitment);
    };
    if !expect_lit(text, q2, lit3) {
        proof {
            assert forall|c: ScillaConfigModel|
                storable(c) implies text@ != render_config_spec(c) by {
                if text@ == render_config_spec(c) {
                    lemma_render_quotes(c);
                    let u = c.rpc_url.len() as int;
                    assert(q1 == 11 + u);
                    assert(q2 == 42 + u);
                }
            }
        }
        return Err(ConfigError::Malformed);
    }
    let p3 = q2 + lit3.unicode_len();
    let q3 = match find_quote(text, p3) {
        Some(q) => q,
        None => {
            proof {
                assert forall|c: ScillaConfigModel|
                    storable(c) implies text@ != render_config_spec(c) by {
                    if text@ == render_config_spec(c) {
                        lemma_render_quotes(c);
                        let u = c.rpc_url.len() as int;
                        let p = c.keypair_path.len() as int;
                        assert(q1 == 11 + u);
                        assert(q2 == 42 + u);
                        assert(text@[60 + u + p] == '"');
                    }
                }
            }
            return Err(ConfigError::Malformed);
        },
    };
    let keypair_path = text.substring_char(p3, q3).to_owned();
    if !expect_lit(text, q3, lit4) {
        proof {
            assert forall|c: ScillaConfigModel|
                storable(c) implies text@ != render_config_spec(c) by {
                if text@ == render_config_spec(c) {
                    lemma_render_quotes(c);
                    let u = c.rpc_url.len() as int;
                    let p = c.keypair_path.len() as int;
                    assert(q1 == 11 + u);
                    assert(q2 == 42 + u);
                    assert(q3 == 60 + u + p);
                }
            }
        }
        return Err(ConfigError::Malformed);
    }
    if q3 + lit4.unicode_len() != n {
        proof {
            assert forall|c: ScillaConfigModel|
                storable(c) implies text@ != render_config_spec(c) by {
                if text@ == render_config_spec(c) {
                    lemma_render_quotes(c);
                    let u = c.rpc_url.len() as int;
                    let p = c.keypair_path.len() as int;
                    assert(q1 == 11 + u);
                    assert(q2 == 42 + u);
                    assert(q3 == 60 + u + p);
                    assert(n == 62 + u + p);
                }
            }
        }
        return Err(ConfigError::Malformed);
    }
    let config = ScillaConfig { rpc_url, commitment_level, keypair_path };
    proof {
        assert(commitment_text_spec(config.commitment_level) == text@.subrange(
            p2 as int,
            q2 as int,
        )) by {
            assert(text@.subrange(p2 as int, q2 as int) =~= text@.subrange(p2 as int, p2 + 9));
        };
        assert(text@ =~= render_config_spec(config@));
        // the values run up to the first quote, so neither holds one
        assert forall|i: int|
            0 <= i < config.rpc_url@.len() implies #[trigger] config.rpc_url@[i] != '"' by {
            assert(config.rpc_url@[i] == text@[p1 + i]);
        }
        assert forall|i: int|
            0 <= i < config.keypair_path@.len() implies #[trigger] config.keypair_path@[i]
            != '"' by {
            assert(config.keypair_path@[i] == text@[p3 + i]);
        }
    }
    Ok(config)
}

/// A menu choice for the node endpoint.
#[derive(Debug)]
pub enum RpcChoice {
    Devnet,
    Mainnet,
    Testnet,
    Custom,
    KeepCurrent,
    Invalid,
}

/// What an endpoint menu answer means: the numbered presets, a custom
/// entry, and — only where an endpoint is already set — keeping it.
pub open spec fn rpc_choice_spec(s: Seq<char>, allow_keep: bool) -> RpcChoice {
    if s.len() == 1 && s[0] == '1' {
        RpcChoice::Devnet
    } else if s.len() == 1 && s[0] == '2' {
        RpcChoice::Mainnet
    } else if s.len() == 1 && s[0] == '3' {
        RpcChoice::Testnet
    } else if s.len() == 1 && s[0] == '4' {
        RpcChoice::Custom
    } else if allow_keep && s.len() == 1 && s[0] == '5' {
        RpcChoice::KeepCurrent
    } else {
        RpcChoice::Invalid
    }
}

/// Reads an endpoint menu answer: exactly `rpc_choice_spec`.
pub fn parse_rpc_choice(s: &str, allow_keep: bool) -> (r: RpcChoice)
    ensures
        r == rpc_choice_spec(s@, allow_keep),
{
    if s.unicode_len() != 1 {
        return RpcChoice::Invalid;
    }
    let c = s.get_char(0);
    if c == '1' {
        RpcChoice::Devnet
    } else if c == '2' {
        RpcChoice::Mainnet
    } else if c == '3' {
        RpcChoice::Testnet
    } else if c == '4' {
        RpcChoice::Custom
    } else if allow_keep && c == '5' {
        RpcChoice::KeepCurrent
    } else {
        RpcChoice::Invalid
    }
}

/// A menu choice for the commitment level.
#[derive(Debug)]
pub enum CommitmentChoice {
    Chosen(CommitmentLevel),
    KeepCurrent,
    Invalid,
}

/// What a commitment menu answer means.
pub open spec fn commitment_choice_spec(s: Seq<char>, allow_keep: bool) -> CommitmentChoice {
    if s.len() == 1 && s[0] == '1' {
        CommitmentChoice::Chosen(CommitmentLevel::Processed)
    } else if s.len() == 1 && s[0] == '2' {
        CommitmentChoice::Chosen(CommitmentLevel::Confirmed)
    } else if s.len() == 1 && s[0] == '3' {
        CommitmentChoice::Chosen(CommitmentLevel::Finalized)
    } else if allow_keep && s.len() == 1 && s[0] == '4' {
        CommitmentChoice::KeepCurrent
    } else {
        CommitmentChoice::Invalid
    }
}

/// Reads a commitment menu answer: exactly `commitment_choice_spec`.
pub fn parse_commitment_choice(s: &str, allow_keep: bool) -> (r: CommitmentChoice)
    ensures
        r == commitment_choice_spec(s@, allow_keep),
{
    if s.unicode_len() != 1 {
        return CommitmentChoice::Invalid;
    }
    let c = s.get_char(0);
    if c == '1' {
        CommitmentChoice::Chosen(CommitmentLevel::Processed)
    } else if c == '2' {
        CommitmentChoice::Chosen(CommitmentLevel::Confirmed)
    } else if c == '3' {
        CommitmentChoice::Chosen(CommitmentLevel::Finalized)
    } else if allow_keep && c == '4' {
        CommitmentChoice::KeepCurrent
    } else {
        CommitmentChoice::Invalid
    }
}

/// A yes-or-no answer.
#[derive(Debug)]
pub enum YesNo {
    Yes,
    No,
    Invalid,
}

pub open spec fn lower_char(c: char) -> char {
    if 'A' <= c && c <= 'Z' {
        ((c as u32) + 32) as char
    } else {
        c
    }
}

/// What a yes-or-no answer means: `y` or `yes`, `n` or `no`, in any case.
pub open spec fn yes_no_spec(s: Seq<char>) -> YesNo {
    if (s.len() == 1 && lower_char(s[0]) == 'y') || (s.len() == 3 && lower_char(s[0]) == 'y'
        && lower_char(s[1]) == 'e' && lower_char(s[2]) == 's') {
        YesNo::Yes
    } else if (s.len() == 1 && lower_char(s[0]) == 'n') || (s.len() == 2 && lower_char(s[0]) == 'n'
        && lower_char(s[1]) == 'o') {
        YesNo::No
    } else {
        YesNo::Invalid
    }
}

fn lower_char_exec(c: char) -> (r: char)
    ensures
        r == lower_char(c),
{
    if c >= 'A' && c <= 'Z' {
        (((c as u32) + 32) as u8) as char
    } else {
        c
    }
}

/// Reads a yes-or-no answer: exactly `yes_no_spec`.
pub fn parse_yes_no(s: &str) -> (r: YesNo)
    ensures
        r == yes_no_spec(s@),
{
    let n = s.unicode_len();
    if n == 1 {
        let c0 = lower_char_exec(s.get_char(0));
        if c0 == 'y' {
            YesNo::Yes
        } else if c0 == 'n' {
            YesNo::No
        } else {
            YesNo::Invalid
        }
    } else if n == 2 {
        let c0 = lower_char_exec(s.get_char(0));
        let c1 = lower_char_exec(s.get_char(1));
        if c0 == 'n' && c1 == 'o' {
            YesNo::No
        } else {
            YesNo::Invalid
        }
    } else if n == 3 {
        let c0 = lower_char_exec(s.get_char(0));
        let c1 = lower_char_exec(s.get_char(1));
        let c2 = lower_char_exec(s.get_char(2));
        if c0 == 'y' && c1 == 'e' && c2 == 's' {
            YesNo::Yes
        } else {
            YesNo::Invalid
        }
    } else {
        YesNo::Invalid
    }
}

} // verus!
