//! The daemon's configuration, and its marshaling into the fixed record that
//! the engine's init call reads.
use vstd::prelude::*;
use vstd::utf8::{
    char_is_scalar, char_u32_cast, decode_utf8, encode_scalar, encode_utf8, has_width_1_encoding,
    has_width_2_encoding, has_width_3_encoding, is_scalar, valid_utf8,
};

use crate::start_error::{StartError, StartErrorView};
use crate::text::utf8_text;
use crate::time_span::TimeSpan;

verus! {

/// The engine's log-level code for debug output.
pub const LOG_LEVEL_DEBUG: usize = 4;

/// The engine's log-level code for no output.
pub const LOG_LEVEL_OFF: usize = 0;

/// How the daemon should run. Every field but the port is optional.
#[derive(Debug, Clone)]
pub struct DaemonConfig {
    /// Working directory, as the bytes that the host's path holds.
    pub temp_dir: Option<Vec<u8>>,
    /// Port to listen on; 0 lets the engine pick one.
    pub port: u16,
    /// Most blocks that one request may fetch.
    pub max_blocks: Option<u64>,
    /// Longest that one request may take.
    pub global_timeout: Option<TimeSpan>,
    /// Bearer token that requests must carry.
    pub access_token: Option<String>,
}

/// A `DaemonConfig` with its texts as sequences.
pub struct ConfigView {
    pub temp_dir: Option<Seq<u8>>,
    pub port: u16,
    pub max_blocks: Option<u64>,
    pub global_timeout: Option<TimeSpan>,
    pub access_token: Option<Seq<char>>,
}

impl View for DaemonConfig {
    type V = ConfigView;

    open spec fn view(&self) -> ConfigView {
        ConfigView {
            temp_dir: match self.temp_dir {
                Some(b) => Some(b@),
                None => None,
            },
            port: self.port,
            max_blocks: self.max_blocks,
            global_timeout: self.global_timeout,
            access_token: match self.access_token {
                Some(t) => Some(t@),
                None => None,
            },
        }
    }
}

impl Default for DaemonConfig {
    /// No working directory, an engine-picked port, no limits, no token.
    fn default() -> (r: DaemonConfig)
        ensures
            r@ == (ConfigView {
                temp_dir: None,
                port: 0,
                max_blocks: None,
                global_timeout: None,
                access_token: None,
            }),
    {
        DaemonConfig {
            temp_dir: None,
            port: 0,
            max_blocks: None,
            global_timeout: None,
            access_token: None,
        }
    }
}

/// The record handed to the engine's init call. Its texts are
/// null-terminated byte buffers with no other null byte; absent settings are
/// empty texts and zeros, which the engine reads as "none".
#[derive(Debug, Clone)]
pub struct BoundaryConfig {
    pub temp_dir: Vec<u8>,
    pub port: u16,
    pub log_level: usize,
    pub max_blocks: u64,
    /// The global timeout in nanoseconds.
    pub global_timeout_nanos: i64,
    pub access_token: Vec<u8>,
}

/// A `BoundaryConfig` with its buffers as sequences.
pub struct BoundaryView {
    pub temp_dir: Seq<u8>,
    pub port: u16,
    pub log_level: usize,
    pub max_blocks: u64,
    pub global_timeout_nanos: i64,
    pub access_token: Seq<u8>,
}

impl View for BoundaryConfig {
    type V = BoundaryView;

    open spec fn view(&self) -> BoundaryView {
        BoundaryView {
            temp_dir: self.temp_dir@,
            port: self.port,
            log_level: self.log_level,
            max_blocks: self.max_blocks,
            global_timeout_nanos: self.global_timeout_nanos,
            access_token: self.access_token@,
        }
    }
}

/// Whether a byte sequence holds a null byte.
pub open spec fn has_nul(b: Seq<u8>) -> bool {
    exists|i: int| 0 <= i < b.len() && b[i] == 0
}

/// A text as a null-terminated buffer.
pub open spec fn c_text(b: Seq<u8>) -> Seq<u8> {
    b.push(0)
}

/// The log-level code sent to the engine: debug when the host logs at debug
/// level, else none; no level in between is forwarded.
pub open spec fn log_level_code(debug_enabled: bool) -> usize {
    if debug_enabled {
        LOG_LEVEL_DEBUG
    } else {
        LOG_LEVEL_OFF
    }
}

/// The bytes of an optional text, empty when absent.
pub open spec fn token_bytes(t: Option<Seq<char>>) -> Seq<u8> {
    match t {
        Some(t) => encode_utf8(t),
        None => Seq::empty(),
    }
}

/// The record for a configuration that passed every check.
pub open spec fn boundary_of(c: ConfigView, debug_enabled: bool) -> BoundaryView {
    BoundaryView {
        temp_dir: c_text(
            match c.temp_dir {
                Some(p) => p,
                None => Seq::empty(),
            },
        ),
        port: c.port,
        log_level: log_level_code(debug_enabled),
        max_blocks: match c.max_blocks {
            Some(m) => m,
            None => 0,
        },
        global_timeout_nanos: match c.global_timeout {
            Some(d) => d.total_nanos() as i64,
            None => 0,
        },
        access_token: c_text(token_bytes(c.access_token)),
    }
}

/// The first check that a configuration fails, in the order: working
/// directory as UTF-8, working directory free of null bytes, access token
/// free of null bytes, timeout within the engine's range.
pub open spec fn config_fault(c: ConfigView) -> Option<StartErrorView> {
    if c.temp_dir is Some && !valid_utf8(c.temp_dir->0) {
        Some(StartErrorView::PathIsNotValidUtf8(c.temp_dir->0))
    } else if c.temp_dir is Some && has_nul(c.temp_dir->0) {
        Some(StartErrorView::PathContainsNullByte(decode_utf8(c.temp_dir->0)))
    } else if c.access_token is Some && c.access_token->0.contains('\0') {
        Some(StartErrorView::AccessTokenContainsNullByte(c.access_token->0))
    } else if c.global_timeout is Some && c.global_timeout->0.total_nanos() > i64::MAX {
        Some(StartErrorView::DurationIsTooLong(c.global_timeout->0))
    } else {
        None
    }
}

/// What marshaling makes of a configuration.
pub open spec fn marshal_spec(c: ConfigView, debug_enabled: bool) -> Result<
    BoundaryView,
    StartErrorView,
> {
    match config_fault(c) {
        Some(e) => Err(e),
        None => Ok(boundary_of(c, debug_enabled)),
    }
}

/// Whether a configuration passes every check.
pub open spec fn config_valid(c: ConfigView) -> bool {
    config_fault(c) is None
}

/// The view of a marshaling outcome.
pub open spec fn marshal_view(r: Result<BoundaryConfig, StartError>) -> Result<
    BoundaryView,
    StartErrorView,
> {
    match r {
        Ok(b) => Ok(b@),
        Err(e) => Err(e@),
    }
}

/// A scalar's UTF-8 encoding holds a null byte exactly when the scalar is 0:
/// every byte of a longer encoding has its high bit set.
proof fn lemma_scalar_nul(v: u32)
    requires
        is_scalar(v),
    ensures
        has_nul(encode_scalar(v)) <==> v == 0,
{
    let e = encode_scalar(v);
    if has_width_1_encoding(v) {
        assert((v & 0x7F) as u8 == 0 <==> v == 0) by (bit_vector)
            requires v <= 0x7F;
        assert(e.len() == 1 && e[0] == (v & 0x7F) as u8);
    } else {
        assert(forall|x: u8| #![auto] (0x80u8 | x) != 0) by (bit_vector);
        assert(forall|x: u8| #![auto] (0xC0u8 | x) != 0) by (bit_vector);
        assert(forall|x: u8| #![auto] (0xE0u8 | x) != 0) by (bit_vector);
        assert(forall|x: u8| #![auto] (0xF0u8 | x) != 0) by (bit_vector);
        assert(forall|i: int| 0 <= i < e.len() ==> e[i] != 0);
    }
}

/// A text's UTF-8 encoding holds a null byte exactly when the text holds
/// the null character, so a byte-wise check and a character-wise one agree.
pub proof fn lemma_encoded_nul(s: Seq<char>)
    ensures
        has_nul(encode_utf8(s)) <==> s.contains('\0'),
    decreases s.len(),
{
    if s.len() == 0 {
        assert(encode_utf8(s) =~= Seq::<u8>::empty());
    } else {
        let head = encode_scalar(s[0] as u32);
        let rest = s.drop_first();
        let tail = encode_utf8(rest);
        char_is_scalar(s[0]);
        lemma_scalar_nul(s[0] as u32);
        lemma_encoded_nul(rest);
        assert(encode_utf8(s) == head + tail);
        assert(has_nul(head + tail) <==> has_nul(head) || has_nul(tail)) by {
            if has_nul(head + tail) {
                let i = choose|i: int| 0 <= i < (head + tail).len() && (head + tail)[i] == 0;
                if i >= head.len() {
                    assert(tail[i - head.len()] == 0);
                }
            }
            if has_nul(head) {
                let j = choose|j: int| 0 <= j < head.len() && head[j] == 0;
                assert((head + tail)[j] == 0);
            }
            if has_nul(tail) {
                let j = choose|j: int| 0 <= j < tail.len() && tail[j] == 0;
                assert((head + tail)[head.len() + j] == 0);
            }
        }
        if s[0] as u32 == 0 {
            char_u32_cast(s[0], 0u32);
            char_u32_cast('\0', 0u32);
        }
        assert(s.contains('\0') <==> s[0] == '\0' || rest.contains('\0')) by {
            if s.contains('\0') && s[0] != '\0' {
                let k = choose|k: int| 0 <= k < s.len() && s[k] == '\0';
                assert(rest[k - 1] == '\0');
            }
            if rest.contains('\0') {
                let k = choose|k: int| 0 <= k < rest.len() && rest[k] == '\0';
                assert(s[k + 1] == '\0');
            }
        }
    }
}

/// A copy of `b` followed by a null byte, or `None` when `b` holds one.
fn nul_terminated(b: &[u8]) -> (r: Option<Vec<u8>>)
    ensures
        r is None <==> has_nul(b@),
        r matches Some(v) ==> v@ == c_text(b@),
{
    let mut out: Vec<u8> = Vec::new();
    let mut i: usize = 0;
    while i < b.len()
        invariant
            i <= b@.len(),
            out@ == b@.subrange(0, i as int),
            forall|j: int| 0 <= j < i ==> b@[j] != 0,
        decreases b@.len() - i,
    {
        if b[i] == 0 {
            return None;
        }
        out.push(b[i]);
        i = i + 1;
        assert(out@ == b@.subrange(0, i as int));
    }
    out.push(0);
    assert(out@ == c_text(b@));
    Some(out)
}

/// Checks a configuration and converts it into the engine's record.
/// `debug_enabled` says whether the host logs at debug level.
pub fn marshal(config: &DaemonConfig, debug_enabled: bool) -> (r: Result<BoundaryConfig, StartError>)
    ensures
        marshal_view(r) == marshal_spec(config@, debug_enabled),
{
    let temp_dir: Vec<u8> = match &config.temp_dir {
        None => {
            let buf = vec![0u8];
            assert(buf@ == c_text(Seq::<u8>::empty()));
            buf
        },
        Some(path) => {
            let text = match utf8_text(path) {
                None => {
                    let bytes = path.clone();
                    assert(bytes@ == path@);
                    return Err(StartError::PathIsNotValidUtf8(bytes));
                },
                Some(text) => text,
            };
            match nul_terminated(path.as_slice()) {
                None => return Err(StartError::PathContainsNullByte(text)),
                Some(buf) => buf,
            }
        },
    };
    let access_token: Vec<u8> = match &config.access_token {
        None => {
            let buf = vec![0u8];
            assert(buf@ == c_text(Seq::<u8>::empty()));
            buf
        },
        Some(token) => {
            let bytes = token.as_str().as_bytes();
            assert(bytes@ == encode_utf8(token@));
            proof {
                lemma_encoded_nul(token@);
            }
            match nul_terminated(bytes) {
                None => return Err(StartError::AccessTokenContainsNullByte(token.clone())),
                Some(buf) => buf,
            }
        },
    };
    let global_timeout_nanos: i64 = match &config.global_timeout {
        None => 0,
        Some(d) => {
            let nanos = d.as_nanos();
            if nanos > i64::MAX as u128 {
                return Err(StartError::DurationIsTooLong(*d));
            }
            nanos as i64
        },
    };
    let max_blocks: u64 = match config.max_blocks {
        None => 0,
        Some(m) => m,
    };
    let log_level = if debug_enabled {
        LOG_LEVEL_DEBUG
    } else {
        LOG_LEVEL_OFF
    };
    Ok(
        BoundaryConfig {
            temp_dir,
            port: config.port,
            log_level,
            max_blocks,
            global_timeout_nanos,
            access_token,
        },
    )
}

} // verus!
