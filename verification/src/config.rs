use configparser::ini::Ini;
use vstd::prelude::*;

verus! {

/// The smallest display resolution, in pixels per side.
pub const DISPLAY_RES: u32 = 256;

/// The console's settings.
#[derive(PartialEq, Eq, Structural, Clone, Copy, Debug)]
pub struct Snow64Config {
    pub display_res: u32,
    pub dev_debug: bool,
}

/// Why a configuration file was refused, with the parser's message.
#[derive(PartialEq, Eq, Debug)]
pub enum ConfigError {
    /// The file is not well-formed ini syntax.
    Syntax(String),
    /// A setting holds a value of the wrong kind.
    Value(String),
}

/// The settings before any file is read: the smallest resolution, and
/// debugging exactly in a debug build.
pub open spec fn spec_default_config(debug_build: bool) -> Snow64Config {
    Snow64Config { display_res: DISPLAY_RES, dev_debug: debug_build }
}

/// `config` with a resolution and a debug flag from a file applied. A
/// resolution counts through its low 32 bits, and only when those are at
/// least `DISPLAY_RES`.
pub open spec fn spec_apply_settings(
    config: Snow64Config,
    display_res: Option<u64>,
    dev_debug: Option<bool>,
) -> Snow64Config {
    let res = match display_res {
        Some(v) => if v as int % 0x1_0000_0000 >= DISPLAY_RES {
            (v as int % 0x1_0000_0000) as u32
        } else {
            config.display_res
        },
        None => config.display_res,
    };
    let dbg = match dev_debug {
        Some(b) => b,
        None => config.dev_debug,
    };
    Snow64Config { display_res: res, dev_debug: dbg }
}

impl Snow64Config {
    /// The settings before any file is read; `debug_build` says whether this
    /// is a debug build.
    pub fn default_for(debug_build: bool) -> (c: Snow64Config)
        ensures
            c == spec_default_config(debug_build),
    {
        Snow64Config { display_res: DISPLAY_RES, dev_debug: debug_build }
    }
}

/// Applies the resolution and debug flag read from a file to `config`.
pub fn apply_settings(config: Snow64Config, display_res: Option<u64>, dev_debug: Option<bool>) -> (c:
    Snow64Config)
    ensures
        c == spec_apply_settings(config, display_res, dev_debug),
{
    let mut c = config;
    match display_res {
        None => {},
        Some(val) => {
            let low: u32 = #[verifier::truncate] (val as u32);
            assert(low == val as int % 0x1_0000_0000) by (bit_vector)
                requires
                    low == #[verifier::truncate] (val as u32),
            ;
            if low >= DISPLAY_RES {
                c.display_res = low;
            }
        },
    }
    match dev_debug {
        None => {},
        Some(val) => c.dev_debug = val,
    }
    c
}

// ----- Ini files -----
#[verifier::external_type_specification]
#[verifier::external_body]
pub struct ExIni(Ini);

/// The sections of a parsed ini file: section name to key to value, where a
/// key written without a value maps to `None`.
pub uninterp spec fn ini_sections(ini: Ini) -> Map<Seq<char>, Map<Seq<char>, Option<Seq<char>>>>;

/// What `Ini::read` gives for `text` on a parser made by `Ini::new`: the
/// sections, or the message of the first malformed line.
pub uninterp spec fn ini_parse(text: Seq<char>) -> Result<
    Map<Seq<char>, Map<Seq<char>, Option<Seq<char>>>>,
    Seq<char>,
>;

/// The value stored under `key` in `section`, if any.
pub open spec fn ini_value(
    sections: Map<Seq<char>, Map<Seq<char>, Option<Seq<char>>>>,
    section: Seq<char>,
    key: Seq<char>,
) -> Option<Seq<char>> {
    if sections.contains_key(section) && sections[section].contains_key(key) {
        sections[section][key]
    } else {
        None
    }
}

/// Whether every character is an ASCII lowercase letter; such names are their
/// own lowercase form.
pub open spec fn is_lower_name(s: Seq<char>) -> bool {
    forall|i: int| 0 <= i < s.len() ==> 'a' <= #[trigger] s[i] <= 'z'
}

/// The value of a string of decimal digits.
pub open spec fn digits_value(s: Seq<char>) -> int
    decreases s.len(),
{
    if s.len() == 0 {
        0
    } else {
        digits_value(s.drop_last()) * 10 + (s.last() as int - '0' as int)
    }
}

/// Whether `s` is one or more ASCII digits.
pub open spec fn is_digits(s: Seq<char>) -> bool {
    s.len() > 0 && forall|i: int| 0 <= i < s.len() ==> '0' <= #[trigger] s[i] <= '9'
}

/// How `str::parse::<u64>` reads `s`: an optional `+` and then one or more
/// decimal digits whose value fits in a `u64`; anything else is refused.
pub open spec fn parse_u64(s: Seq<char>) -> Option<u64> {
    let body = if s.len() > 0 && s[0] == '+' {
        s.drop_first()
    } else {
        s
    };
    if is_digits(body) && digits_value(body) <= u64::MAX {
        Some(digits_value(body) as u64)
    } else {
        None
    }
}

/// The ASCII lowercase form of a character.
pub open spec fn ascii_lower(c: char) -> char {
    if 'A' <= c <= 'Z' {
        ((c as int) + 32) as char
    } else {
        c
    }
}

/// How a value reads as a flag: `true` or `false` in any mix of case.
pub open spec fn parse_flag(s: Seq<char>) -> Option<bool> {
    let lower = s.map_values(|c: char| ascii_lower(c));
    if lower == seq!['t', 'r', 'u', 'e'] {
        Some(true)
    } else if lower == seq!['f', 'a', 'l', 's', 'e'] {
        Some(false)
    } else {
        None
    }
}

/// The message `Ini::getuint` gives for a stored value that is not a `u64`
/// (the text of the standard library's integer parse error for it).
pub uninterp spec fn uint_error_message(value: Seq<char>) -> Seq<char>;

/// The message `Ini::getbool` gives for a stored value that is not `true` or
/// `false` (the text of the standard library's flag parse error for it).
pub uninterp spec fn flag_error_message(value: Seq<char>) -> Seq<char>;

/// What reading `key` in `section` as a number gives: `Ok(None)` when it is
/// absent or has no value, `Ok(Some(n))` for a number, and for any other
/// value an error with the message that value gives.
pub open spec fn uint_setting(
    sections: Map<Seq<char>, Map<Seq<char>, Option<Seq<char>>>>,
    section: Seq<char>,
    key: Seq<char>,
) -> Result<Option<u64>, Seq<char>> {
    match ini_value(sections, section, key) {
        None => Ok(None),
        Some(v) => match parse_u64(v) {
            Some(n) => Ok(Some(n)),
            None => Err(uint_error_message(v)),
        },
    }
}

/// What reading `key` in `section` as a flag gives, in the same form as
/// `uint_setting`.
pub open spec fn flag_setting(
    sections: Map<Seq<char>, Map<Seq<char>, Option<Seq<char>>>>,
    section: Seq<char>,
    key: Seq<char>,
) -> Result<Option<bool>, Seq<char>> {
    match ini_value(sections, section, key) {
        None => Ok(None),
        Some(v) => match parse_flag(v) {
            Some(b) => Ok(Some(b)),
            None => Err(flag_error_message(v)),
        },
    }
}

/// Parses `text` with a parser from `Ini::new` (`Ini::read`). The contract
/// ties the outcome to `ini_parse(text)` and the parser's contents to
/// `ini_sections`; what the parse yields for given text is not stated.
#[verifier::external_body]
fn read_ini(text: String) -> (res: Result<Ini, String>)
    ensures
        match res {
            Ok(ini) => ini_parse(text@) == Ok::<_, Seq<char>>(ini_sections(ini)),
            Err(e) => ini_parse(text@) == Err::<Map<Seq<char>, Map<Seq<char>, Option<Seq<char>>>>, _>(e@),
        },
{
    let mut ini = Ini::new();
    match ini.read(text) {
        Ok(_) => Ok(ini),
        Err(e) => Err(e),
    }
}

/// `Ini::getuint`: the value under `key` in `section` parsed as a `u64`, or
/// `Ok(None)` when there is none. For a value that is not a number the
/// message is named `uint_error_message` of that value; its text is not
/// stated.
#[verifier::external_body]
fn ini_getuint(ini: &Ini, section: &str, key: &str) -> (res: Result<Option<u64>, String>)
    requires
        is_lower_name(section@),
        is_lower_name(key@),
    ensures
        res matches Ok(v) ==> uint_setting(ini_sections(*ini), section@, key@) matches Ok(w)
            && w == v,
        res matches Err(e) ==> uint_setting(ini_sections(*ini), section@, key@) matches Err(m)
            && m == e@,
        res matches Err(e) ==> ini_value(ini_sections(*ini), section@, key@) matches Some(v)
            && e@ == uint_error_message(v),
{
    ini.getuint(section, key)
}

/// `Ini::getbool`: the value under `key` in `section` read as `true` or
/// `false` in any case, or `Ok(None)` when there is none. For any other
/// value the message is named `flag_error_message` of that value; its text
/// is not stated.
#[verifier::external_body]
fn ini_getbool(ini: &Ini, section: &str, key: &str) -> (res: Result<Option<bool>, String>)
    requires
        is_lower_name(section@),
        is_lower_name(key@),
    ensures
        res matches Ok(v) ==> flag_setting(ini_sections(*ini), section@, key@) matches Ok(w)
            && w == v,
        res matches Err(e) ==> flag_setting(ini_sections(*ini), section@, key@) matches Err(m)
            && m == e@,
        res matches Err(e) ==> ini_value(ini_sections(*ini), section@, key@) matches Some(v)
            && e@ == flag_error_message(v),
{
    ini.getbool(section, key)
}

pub open spec fn display_section() -> Seq<char> {
    seq!['d', 'i', 's', 'p', 'l', 'a', 'y']
}

pub open spec fn res_key() -> Seq<char> {
    seq!['r', 'e', 's']
}

pub open spec fn dev_section() -> Seq<char> {
    seq!['d', 'e', 'v']
}

pub open spec fn debug_key() -> Seq<char> {
    seq!['d', 'e', 'b', 'u', 'g']
}

/// Why a configuration file's text is refused, with the message.
pub enum ConfigFailure {
    Syntax(Seq<char>),
    Value(Seq<char>),
}

/// The settings that a configuration file's text gives, or why it is
/// refused; an empty file gives the defaults.
pub open spec fn spec_load_config(text: Seq<char>, debug_build: bool) -> Result<
    Snow64Config,
    ConfigFailure,
> {
    if text.len() == 0 {
        Ok(spec_default_config(debug_build))
    } else {
        match ini_parse(text) {
            Err(m) => Err(ConfigFailure::Syntax(m)),
            Ok(sections) => match uint_setting(sections, display_section(), res_key()) {
                Err(m) => Err(ConfigFailure::Value(m)),
                Ok(res) => match flag_setting(sections, dev_section(), debug_key()) {
                    Err(m) => Err(ConfigFailure::Value(m)),
                    Ok(dbg) => Ok(spec_apply_settings(spec_default_config(debug_build), res, dbg)),
                },
            },
        }
    }
}

/// Reads the settings from the text of a configuration file: `[display] res`
/// sets the resolution when it is at least `DISPLAY_RES`, `[dev] debug` sets
/// the debug flag. `debug_build` says whether this is a debug build.
pub fn load_config(file: String, debug_build: bool) -> (r: Result<Snow64Config, ConfigError>)
    ensures
        match spec_load_config(file@, debug_build) {
            Ok(c) => r matches Ok(x) && x == c,
            Err(ConfigFailure::Syntax(m)) => r matches Err(ConfigError::Syntax(e)) && e@ == m,
            Err(ConfigFailure::Value(m)) => r matches Err(ConfigError::Value(e)) && e@ == m,
        },
{
    let config = Snow64Config::default_for(debug_build);
    if file.as_str().is_empty() {
        return Ok(config);
    }
    let parser = match read_ini(file) {
        Ok(p) => p,
        Err(e) => return Err(ConfigError::Syntax(e)),
    };
    let display = "display";
    let res = "res";
    let dev = "dev";
    let debug = "debug";
    proof {
        reveal_strlit("display");
        reveal_strlit("res");
        reveal_strlit("dev");
        reveal_strlit("debug");
        assert(display@ =~= display_section());
        assert(res@ =~= res_key());
        assert(dev@ =~= dev_section());
        assert(debug@ =~= debug_key());
    }
    let display_res = match ini_getuint(&parser, display, res) {
        Ok(v) => v,
        Err(e) => return Err(ConfigError::Value(e)),
    };
    let dev_debug = match ini_getbool(&parser, dev, debug) {
        Ok(v) => v,
        Err(e) => return Err(ConfigError::Value(e)),
    };
    Ok(apply_settings(config, display_res, dev_debug))
}

/// Every accepted configuration has at least the smallest resolution.
pub proof fn lemma_loaded_resolution(text: Seq<char>, debug_build: bool)
    ensures
        spec_load_config(text, debug_build) matches Ok(c) ==> c.display_res >= DISPLAY_RES,
{
}

/// A resolution is taken through its low 32 bits exactly when those are at
/// least `DISPLAY_RES`, with no upper limit; otherwise, or when there is
/// none, the resolution stays. The resolution never touches the flag.
pub proof fn lemma_apply_resolution(config: Snow64Config, v: u64, dev_debug: Option<bool>)
    ensures
        v % 0x1_0000_0000 >= 256 ==> spec_apply_settings(config, Some(v), dev_debug).display_res
            == v % 0x1_0000_0000,
        v % 0x1_0000_0000 < 256 ==> spec_apply_settings(config, Some(v), dev_debug).display_res
            == config.display_res,
        spec_apply_settings(config, None, dev_debug).display_res == config.display_res,
        spec_apply_settings(config, Some(v), dev_debug).dev_debug == spec_apply_settings(
            config,
            None,
            dev_debug,
        ).dev_debug,
{
}

/// A debug flag, when given, is taken as it is, whatever the resolution and
/// whether or not that is accepted; without one the flag stays.
pub proof fn lemma_apply_flag(config: Snow64Config, display_res: Option<u64>, b: bool)
    ensures
        spec_apply_settings(config, display_res, Some(b)).dev_debug == b,
        spec_apply_settings(config, display_res, None).dev_debug == config.dev_debug,
        spec_apply_settings(config, display_res, Some(b)).display_res == spec_apply_settings(
            config,
            display_res,
            None,
        ).display_res,
{
}

/// For an accepted, non-empty file: a `[display] res` that reads as a number
/// whose low 32 bits are at least 256 gives exactly those bits as the
/// resolution, an absent one gives 256; a `[dev] debug` that reads as the
/// flag `b` gives `b` whatever the build, and an absent one gives the
/// build's flag. Each setting is independent of the other.
pub proof fn lemma_load_settings(text: Seq<char>, debug_build: bool)
    requires
        text.len() > 0,
        ini_parse(text) is Ok,
        spec_load_config(text, debug_build) is Ok,
    ensures
        ({
            let sections = ini_parse(text)->Ok_0;
            let c = spec_load_config(text, debug_build)->Ok_0;
            let res = ini_value(sections, display_section(), res_key());
            let dbg = ini_value(sections, dev_section(), debug_key());
            &&& res is None ==> c.display_res == 256
            &&& res is Some && parse_u64(res->0) is Some && parse_u64(res->0)->0 % 0x1_0000_0000
                >= 256 ==> c.display_res == parse_u64(res->0)->0 % 0x1_0000_0000
            &&& res is Some && parse_u64(res->0) is Some && parse_u64(res->0)->0 % 0x1_0000_0000
                < 256 ==> c.display_res == 256
            &&& dbg is None ==> c.dev_debug == debug_build
            &&& dbg is Some && parse_flag(dbg->0) is Some ==> c.dev_debug == parse_flag(dbg->0)->0
        }),
{
}

/// Applying settings keeps the resolution at least the smallest one, and
/// applying no settings changes nothing.
pub proof fn lemma_apply_settings(config: Snow64Config, display_res: Option<u64>, dev_debug: Option<bool>)
    ensures
        config.display_res >= DISPLAY_RES ==> spec_apply_settings(config, display_res, dev_debug).display_res >= DISPLAY_RES,
        spec_apply_settings(config, None, None) == config,
{
}

} // verus!
