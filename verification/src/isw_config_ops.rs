//! Address resolution: the configuration, kept by the INI parser, and the
//! lookups that turn a section and a key into a number or, through the
//! section's address profile, into a register address.

use crate::error::{format_not_found_error, ConfigError, ConfigErrorView};
use crate::numeric::{
    has_hex_prefix, law_literal_step, literal_value, numeric_value, parse_numeric,
};
use configparser::ini::Ini;
use vstd::prelude::*;
use vstd::string::*;

verus! {

/// The INI parser of `configparser`, carried as an opaque value.
#[verifier::external_type_specification]
#[verifier::external_body]
pub struct ExIni(configparser::ini::Ini);

/// What a configuration holds: the value for each section name and key
/// name under which `Ini::get` finds one. The names are matched as
/// `Ini::get` matches them, which with the settings of `Ini::new` is
/// without regard to case. A key that the text gives without a value has
/// no entry.
pub uninterp spec fn ini_entries(ini: Ini) -> Map<(Seq<char>, Seq<char>), Seq<char>>;

/// The configuration without any entry.
pub open spec fn no_entries() -> Map<(Seq<char>, Seq<char>), Seq<char>> {
    Map::empty()
}

/// What `Ini::read` makes of a text when the parser has the settings of
/// `Ini::new`: the configuration that the parser then holds, or the reason
/// for which it refuses the text.
pub uninterp spec fn ini_read_result(text: Seq<char>) -> Result<
    Map<(Seq<char>, Seq<char>), Seq<char>>,
    Seq<char>,
>;

/// `Ini::new`: a parser with the default settings that holds no section,
/// so that no lookup finds a value.
#[verifier::external_body]
fn new_ini() -> (r: Ini)
    ensures
        ini_entries(r) == no_entries(),
{
    Ini::new()
}

/// `Ini::read` on a parser fresh from `Ini::new`: the parser with the
/// configuration of `text`, or the reason for which `text` was refused.
/// Which of the two, and what the parser then holds, depends on `text` alone.
#[verifier::external_body]
fn read_ini(text: &str) -> (r: Result<Ini, String>)
    ensures
        r matches Ok(ini) ==> (ini_read_result(text@) matches Ok(entries) && entries
            == ini_entries(ini)),
        r matches Err(reason) ==> (ini_read_result(text@) matches Err(why) && why == reason@),
{
    let mut ini = Ini::new();
    match ini.read(text.to_string()) {
        Ok(_) => Ok(ini),
        Err(reason) => Err(reason),
    }
}

/// `Ini::get`: the value that the configuration holds for `section` and
/// `key`, if it holds one.
#[verifier::external_body]
fn ini_get(ini: &Ini, section: &str, key: &str) -> (r: Option<String>)
    ensures
        match r {
            Some(value) => ini_entries(*ini).contains_key((section@, key@)) && ini_entries(
                *ini,
            )[(section@, key@)] == value@,
            None => !ini_entries(*ini).contains_key((section@, key@)),
        },
{
    ini.get(section, key)
}

/// The key under which a section names its address profile.
pub const ADDRESS_PROFILE: &'static str = "address_profile";

/// A lookup result with the texts of its error as character sequences.
pub open spec fn config_result<T>(r: Result<T, ConfigError>) -> Result<T, ConfigErrorView> {
    match r {
        Ok(v) => Ok(v),
        Err(e) => Err(e@),
    }
}

/// The number that `entries` holds for `section` and `key`: the entry has
/// to be there and to be a numeric literal.
pub open spec fn numeric_property(
    entries: Map<(Seq<char>, Seq<char>), Seq<char>>,
    section: Seq<char>,
    key: Seq<char>,
) -> Result<u64, ConfigErrorView> {
    if !entries.contains_key((section, key)) {
        Err(ConfigErrorView::MissingKey { section, key })
    } else {
        match numeric_value(entries[(section, key)]) {
            Some(n) => Ok(n),
            None => Err(ConfigErrorView::Parse),
        }
    }
}

/// The address that `entries` gives `address_of` for `section`: the
/// section names its address profile, and the profile's section holds the
/// address under `address_of`.
pub open spec fn base_address(
    entries: Map<(Seq<char>, Seq<char>), Seq<char>>,
    section: Seq<char>,
    address_of: Seq<char>,
) -> Result<u64, ConfigErrorView> {
    if !entries.contains_key((section, ADDRESS_PROFILE@)) {
        Err(ConfigErrorView::MissingKey { section, key: address_of })
    } else {
        numeric_property(entries, entries[(section, ADDRESS_PROFILE@)], address_of)
    }
}

/// The configuration of one controller model and the name of the file it
/// comes from.
pub struct IswConfigOps {
    m_cfg_file: String,
    m_cfg_parser: Ini,
}

impl IswConfigOps {
    /// The name of the configuration file.
    pub closed spec fn file(&self) -> Seq<char> {
        self.m_cfg_file@
    }

    /// The values of the configuration, by section and key.
    pub closed spec fn entries(&self) -> Map<(Seq<char>, Seq<char>), Seq<char>> {
        ini_entries(self.m_cfg_parser)
    }

    /// An empty configuration for the file `cfg_file`.
    pub fn new(cfg_file: String) -> (r: IswConfigOps)
        ensures
            r.file() == cfg_file@,
            r.entries() == no_entries(),
    {
        IswConfigOps { m_cfg_file: cfg_file, m_cfg_parser: new_ini() }
    }

    /// The name of the configuration file.
    pub fn cfg_file(&self) -> (r: &str)
        ensures
            r@ == self.file(),
    {
        self.m_cfg_file.as_str()
    }

    /// Replaces the configuration by what `text`, the content of the
    /// configuration file, holds. A text that the parser refuses leaves
    /// the configuration empty.
    pub fn load_config(&mut self, text: &str) -> (r: Result<(), ConfigError>)
        ensures
            final(self).file() == old(self).file(),
            match ini_read_result(text@) {
                Ok(entries) => r is Ok && final(self).entries() == entries,
                Err(reason) => config_result(r) == Err::<(), ConfigErrorView>(
                    ConfigErrorView::Load { reason },
                ) && final(self).entries() == no_entries(),
            },
    {
        match read_ini(text) {
            Ok(ini) => {
                self.m_cfg_parser = ini;
                Ok(())
            },
            Err(reason) => {
                self.m_cfg_parser = new_ini();
                Err(ConfigError::Load { reason })
            },
        }
    }

    /// The number that the configuration holds for `section` and `key`.
    pub fn get_numeric_property(&self, section: String, key: String) -> (r: Result<
        u64,
        ConfigError,
    >)
        ensures
            config_result(r) == numeric_property(self.entries(), section@, key@),
    {
        match ini_get(&self.m_cfg_parser, section.as_str(), key.as_str()) {
            None => Err(ConfigError::MissingKey { section, key }),
            Some(value) => match parse_numeric(value.as_str()) {
                Some(n) => Ok(n),
                None => Err(ConfigError::Parse),
            },
        }
    }

    /// The address of `address_of` for `section`, looked up in the address
    /// profile that `section` names.
    pub fn get_base_address(&self, section: String, address_of: String) -> (r: Result<
        u64,
        ConfigError,
    >)
        ensures
            config_result(r) == base_address(self.entries(), section@, address_of@),
    {
        match ini_get(&self.m_cfg_parser, section.as_str(), ADDRESS_PROFILE) {
            None => Err(ConfigError::MissingKey { section, key: address_of }),
            Some(profile) => self.get_numeric_property(profile, address_of),
        }
    }

    /// The text for a value that `y` does not hold under `x`.
    pub fn format_not_found_error(&self, x: String, y: String) -> (r: String)
        ensures
            r@ == crate::error::not_found_text(x@, y@),
    {
        format_not_found_error(x.as_str(), y.as_str())
    }
}

/// The number of a literal that was read, and the failure for a value
/// that is no literal.
pub open spec fn literal_result(literal: Option<u64>) -> Result<u64, ConfigErrorView> {
    match literal {
        Some(n) => Ok(n),
        None => Err(ConfigErrorView::Parse),
    }
}

/// A value without the hexadecimal prefix is read as a decimal literal,
/// and is a parse error if it is none.
pub proof fn law_decimal_property(
    entries: Map<(Seq<char>, Seq<char>), Seq<char>>,
    section: Seq<char>,
    key: Seq<char>,
)
    requires
        entries.contains_key((section, key)),
        !has_hex_prefix(entries[(section, key)]),
    ensures
        numeric_property(entries, section, key) == literal_result(
            literal_value(entries[(section, key)], 10),
        ),
{
}

/// A value with the hexadecimal prefix is read as the hexadecimal literal
/// that follows the prefix, and is a parse error if none follows.
pub proof fn law_hexadecimal_property(
    entries: Map<(Seq<char>, Seq<char>), Seq<char>>,
    section: Seq<char>,
    key: Seq<char>,
)
    requires
        entries.contains_key((section, key)),
        has_hex_prefix(entries[(section, key)]),
    ensures
        numeric_property(entries, section, key) == literal_result(
            literal_value(entries[(section, key)].skip(2), 16),
        ),
{
}

/// Where a section names a profile and the profile's section holds a
/// numeric literal under a key, the base address of that key for the
/// section is the literal's number.
pub proof fn law_base_address_follows_profile(
    entries: Map<(Seq<char>, Seq<char>), Seq<char>>,
    section: Seq<char>,
    key: Seq<char>,
    profile: Seq<char>,
    value: Seq<char>,
    n: u64,
)
    requires
        entries.contains_key((section, ADDRESS_PROFILE@)),
        entries[(section, ADDRESS_PROFILE@)] == profile,
        entries.contains_key((profile, key)),
        entries[(profile, key)] == value,
        numeric_value(value) == Some(n),
    ensures
        base_address(entries, section, key) == Ok::<u64, ConfigErrorView>(n),
{
}

/// Where a section names a profile and the profile's section holds
/// `0x1A2B` under a key, the base address of that key for the section is
/// 6699.
pub proof fn law_base_address_of_hex_literal(
    entries: Map<(Seq<char>, Seq<char>), Seq<char>>,
    section: Seq<char>,
    key: Seq<char>,
    profile: Seq<char>,
)
    requires
        entries.contains_key((section, ADDRESS_PROFILE@)),
        entries[(section, ADDRESS_PROFILE@)] == profile,
        entries.contains_key((profile, key)),
        entries[(profile, key)] == "0x1A2B"@,
    ensures
        base_address(entries, section, key) == Ok::<u64, ConfigErrorView>(6699),
{
    reveal_strlit("0x1A2B");
    let value = "0x1A2B"@;
    assert(has_hex_prefix(value));
    assert(value.skip(2) =~= seq!['1', 'A', '2', 'B']);
    law_literal_step(seq![], '1', 16);
    assert(seq![].push('1') =~= seq!['1']);
    law_literal_step(seq!['1'], 'A', 16);
    assert(seq!['1'].push('A') =~= seq!['1', 'A']);
    law_literal_step(seq!['1', 'A'], '2', 16);
    assert(seq!['1', 'A'].push('2') =~= seq!['1', 'A', '2']);
    law_literal_step(seq!['1', 'A', '2'], 'B', 16);
    assert(seq!['1', 'A', '2'].push('B') =~= seq!['1', 'A', '2', 'B']);
    assert(numeric_value(value) == Some(6699u64));
}

} // verus!
