//! The settings of the daemon and the file that holds them.

use crate::text::{
    all_digits, chars_of, contents, decimal, digits_value, equals_str, is_digit, is_plain_line,
    is_space, join_lines, joined, lemma_decimal_digits, lemma_decimal_round_trip,
    lemma_lines_of_joined, lemma_position_first, lemma_trimmed_end_keeps, lines, lines_of,
    trimmed_start, parse_unsigned, push_decimal, push_str,
    split_at_first, split_once, string_of, trim, trimmed, unsigned_of, views,
};
use vstd::prelude::*;

verus! {

/// How long the daemon waits before it tries the client network again.
#[derive(Debug, Clone, Copy, PartialEq, Eq, Structural)]
pub struct AutoApConfig {
    /// Seconds to stay an access point after it came up.
    pub enable_wait: u64,
    /// Seconds to wait after the last station left.
    pub disconnect_wait: u64,
    /// Whether the daemon logs its sentinels on every notification.
    pub debug: bool,
}

/// The access point that the installer sets up.
#[derive(Debug, Clone, PartialEq, Eq)]
pub struct ApConfig {
    pub ssid: String,
    pub psk: String,
    pub ip_address: String,
}

/// The setting whose value in the file is not a number.
#[derive(Debug, Clone, Copy, PartialEq, Eq, Structural)]
pub enum ConfigError {
    EnableWait,
    DisconnectWait,
    Debug,
}

impl ConfigError {
    /// The text of this error.
    pub open spec fn message(self) -> Seq<char> {
        match self {
            ConfigError::EnableWait => "Failed to parse enablewait"@,
            ConfigError::DisconnectWait => "Failed to parse disconnectwait"@,
            ConfigError::Debug => "Failed to parse debug flag"@,
        }
    }

    /// The text of this error.
    pub fn to_string(&self) -> (r: String)
        ensures
            r@ == self.message(),
    {
        match self {
            ConfigError::EnableWait => "Failed to parse enablewait".to_owned(),
            ConfigError::DisconnectWait => "Failed to parse disconnectwait".to_owned(),
            ConfigError::Debug => "Failed to parse debug flag".to_owned(),
        }
    }
}

impl Default for AutoApConfig {
    fn default() -> (r: Self)
        ensures
            r == AutoApConfig::defaults(),
    {
        Self { enable_wait: 300, disconnect_wait: 20, debug: false }
    }
}

impl AutoApConfig {
    /// The settings of a device whose file sets none.
    pub open spec fn defaults() -> AutoApConfig {
        AutoApConfig { enable_wait: 300, disconnect_wait: 20, debug: false }
    }

    /// The settings after one line of the file. A comment, a blank line, a
    /// line without `=` and an unknown key change nothing. The file writes
    /// `debug` the shell's way: 0 is on.
    pub open spec fn with_line(self, line: Seq<char>) -> Result<AutoApConfig, ConfigError> {
        let line = trimmed(line);
        if line.len() == 0 || line[0] == '#' {
            Ok(self)
        } else {
            match split_at_first(line, '=') {
                None => Ok(self),
                Some((key, value)) => {
                    let key = trimmed(key);
                    let value = trimmed(value);
                    if key == "enablewait"@ {
                        match unsigned_of(value, u64::MAX as nat) {
                            Some(n) => Ok(AutoApConfig { enable_wait: n as u64, ..self }),
                            None => Err(ConfigError::EnableWait),
                        }
                    } else if key == "disconnectwait"@ {
                        match unsigned_of(value, u64::MAX as nat) {
                            Some(n) => Ok(AutoApConfig { disconnect_wait: n as u64, ..self }),
                            None => Err(ConfigError::DisconnectWait),
                        }
                    } else if key == "debug"@ {
                        match unsigned_of(value, u32::MAX as nat) {
                            Some(n) => Ok(AutoApConfig { debug: n == 0, ..self }),
                            None => Err(ConfigError::Debug),
                        }
                    } else {
                        Ok(self)
                    }
                },
            }
        }
    }

    /// The settings after these lines, read in order; the first line that
    /// cannot be read ends the reading.
    pub open spec fn with_lines(self, lines: Seq<Seq<char>>) -> Result<AutoApConfig, ConfigError>
        decreases lines.len(),
    {
        if lines.len() == 0 {
            Ok(self)
        } else {
            match self.with_line(lines[0]) {
                Ok(next) => next.with_lines(lines.drop_first()),
                Err(e) => Err(e),
            }
        }
    }

    /// What a file with this content sets.
    pub open spec fn parsed(content: Seq<char>) -> Result<AutoApConfig, ConfigError> {
        AutoApConfig::defaults().with_lines(lines_of(content))
    }

    /// The lines of the file that holds these settings: each setting under
    /// the comment that explains it.
    pub open spec fn file_lines(self) -> Seq<Seq<char>> {
        seq![
            "#"@,
            "# enablewait"@,
            "#  In AP mode, number of seconds to wait before retrying regular WiFi connection"@,
            "#"@,
            "enablewait="@ + decimal(self.enable_wait as nat),
            "#"@,
            "# disconnectwait"@,
            "#  number of seconds to wait after last AP client disconnects before retrying regular WiFi connection"@,
            "#"@,
            "disconnectwait="@ + decimal(self.disconnect_wait as nat),
            "#"@,
            "# debug logging"@,
            "#  0:debug logging on"@,
            "#  1:debug logging off"@,
            "#"@,
            "debug="@ + (if self.debug {
                "0"@
            } else {
                "1"@
            }),
        ]
    }

    /// The content of the file that holds these settings.
    pub open spec fn rendered(self) -> Seq<char> {
        joined(self.file_lines())
    }

    /// The settings of the device: those of its file, or the defaults when
    /// it has none.
    pub fn load(content: Option<&str>) -> (r: Result<Self, ConfigError>)
        ensures
            r == match content {
                Some(text) => AutoApConfig::parsed(text@),
                None => Ok(AutoApConfig::defaults()),
            },
    {
        match content {
            Some(text) => Self::parse_bash_config(text),
            None => Ok(Self::default()),
        }
    }

    /// The content of the file that holds these settings.
    pub fn save(&self) -> (r: String)
        ensures
            r@ == self.rendered(),
    {
        let mut enable = chars_of("enablewait=");
        push_decimal(&mut enable, self.enable_wait);
        let mut disconnect = chars_of("disconnectwait=");
        push_decimal(&mut disconnect, self.disconnect_wait);
        let mut debug = chars_of("debug=");
        if self.debug {
            push_str(&mut debug, "0");
        } else {
            push_str(&mut debug, "1");
        }
        let mut lines: Vec<Vec<char>> = Vec::new();
        lines.push(chars_of("#"));
        lines.push(chars_of("# enablewait"));
        lines.push(
            chars_of(
                "#  In AP mode, number of seconds to wait before retrying regular WiFi connection",
            ),
        );
        lines.push(chars_of("#"));
        lines.push(enable);
        lines.push(chars_of("#"));
        lines.push(chars_of("# disconnectwait"));
        lines.push(
            chars_of(
                "#  number of seconds to wait after last AP client disconnects before retrying regular WiFi connection",
            ),
        );
        lines.push(chars_of("#"));
        lines.push(disconnect);
        lines.push(chars_of("#"));
        lines.push(chars_of("# debug logging"));
        lines.push(chars_of("#  0:debug logging on"));
        lines.push(chars_of("#  1:debug logging off"));
        lines.push(chars_of("#"));
        lines.push(debug);
        assert(contents(lines@) =~= self.file_lines());
        let out = join_lines(&lines);
        string_of(out.as_slice())
    }

    /// The settings after one line of the file.
    fn parse_line(self, line: &[char]) -> (r: Result<Self, ConfigError>)
        ensures
            r == self.with_line(line@),
    {
        let line = trim(line);
        if line.len() == 0 || line[0] == '#' {
            return Ok(self);
        }
        match split_once(line, '=') {
            None => Ok(self),
            Some((key, value)) => {
                let key = trim(key);
                let value = trim(value);
                if equals_str(key, "enablewait") {
                    match parse_unsigned(value, u64::MAX) {
                        Some(n) => Ok(Self { enable_wait: n, ..self }),
                        None => Err(ConfigError::EnableWait),
                    }
                } else if equals_str(key, "disconnectwait") {
                    match parse_unsigned(value, u64::MAX) {
                        Some(n) => Ok(Self { disconnect_wait: n, ..self }),
                        None => Err(ConfigError::DisconnectWait),
                    }
                } else if equals_str(key, "debug") {
                    match parse_unsigned(value, 0xffff_ffff) {
                        Some(n) => Ok(Self { debug: n == 0, ..self }),
                        None => Err(ConfigError::Debug),
                    }
                } else {
                    Ok(self)
                }
            },
        }
    }

    /// Reads the content of the settings file, which is written as a shell
    /// script of assignments.
    pub fn parse_bash_config(content: &str) -> (r: Result<Self, ConfigError>)
        ensures
            r == AutoApConfig::parsed(content@),
    {
        let text = chars_of(content);
        let all = lines(text.as_slice());
        let mut config = Self::default();
        let mut i: usize = 0;
        assert(views(all@).skip(0) =~= views(all@));
        while i < all.len()
            invariant
                i <= all.len(),
                views(all@) == lines_of(content@),
                config.with_lines(views(all@).skip(i as int)) == AutoApConfig::parsed(content@),
            decreases all.len() - i,
        {
            assert(views(all@).skip(i as int).drop_first() =~= views(all@).skip(i as int + 1));
            assert(views(all@).skip(i as int)[0] == all@[i as int]@);
            match config.parse_line(all[i]) {
                Ok(next) => {
                    config = next;
                },
                Err(e) => {
                    return Err(e);
                },
            }
            i += 1;
        }
        Ok(config)
    }
}

/// A line that begins with `#` changes no setting.
proof fn lemma_comment(config: AutoApConfig, line: Seq<char>)
    requires
        line.len() > 0,
        line[0] == '#',
    ensures
        config.with_line(line) == Ok::<AutoApConfig, ConfigError>(config),
{
    lemma_trimmed_end_keeps(line, 0);
    assert(trimmed_start(line) == line);
    assert(trimmed(line)[0] == line[0]);
}

/// A key, an equals sign and a run of digits are read as that key and
/// those digits.
proof fn lemma_setting(key: Seq<char>, value: Seq<char>)
    requires
        key.len() > 0,
        forall|i: int| 0 <= i < key.len() ==> !is_space(key[i]) && key[i] != '=',
        value.len() > 0,
        all_digits(value),
    ensures
        ({
            let line = key + seq!['='] + value;
            &&& is_plain_line(line)
            &&& trimmed(line) == line
            &&& split_at_first(line, '=') == Some((key, value))
            &&& trimmed(key) == key
            &&& trimmed(value) == value
        }),
{
    let line = key + seq!['='] + value;
    assert(is_digit(value[0]) && is_digit(value.last()));
    assert(forall|i: int| 0 <= i < value.len() ==> is_digit(#[trigger] value[i]));
    assert(trimmed_start(line) == line);
    assert(line.last() == value.last());
    assert(trimmed_start(key) == key);
    assert(trimmed_start(value) == value);
    lemma_position_first(line, '=', key.len() as int);
    assert(line.take(key.len() as int) =~= key);
    assert(line.skip(key.len() as int + 1) =~= value);
}

/// Reading one line more.
proof fn lemma_step(config: AutoApConfig, next: AutoApConfig, lines: Seq<Seq<char>>, at: int)
    requires
        0 <= at < lines.len(),
        config.with_line(lines[at]) == Ok::<AutoApConfig, ConfigError>(next),
    ensures
        config.with_lines(lines.skip(at)) == next.with_lines(lines.skip(at + 1)),
{
    assert(lines.skip(at)[0] == lines[at]);
    assert(lines.skip(at).drop_first() =~= lines.skip(at + 1));
}

/// What is written for the settings is read back as the same settings.
pub proof fn lemma_settings_round_trip(config: AutoApConfig)
    ensures
        AutoApConfig::parsed(config.rendered()) == Ok::<AutoApConfig, ConfigError>(config),
{
    let lines = config.file_lines();
    let start = AutoApConfig::defaults();
    let enabled = AutoApConfig { enable_wait: config.enable_wait, ..start };
    let both = AutoApConfig { disconnect_wait: config.disconnect_wait, ..enabled };
    let flag = if config.debug {
        "0"@
    } else {
        "1"@
    };
    reveal_strlit("#");
    reveal_strlit("# enablewait");
    reveal_strlit(
        "#  In AP mode, number of seconds to wait before retrying regular WiFi connection",
    );
    reveal_strlit("# disconnectwait");
    reveal_strlit(
        "#  number of seconds to wait after last AP client disconnects before retrying regular WiFi connection",
    );
    reveal_strlit("# debug logging");
    reveal_strlit("#  0:debug logging on");
    reveal_strlit("#  1:debug logging off");
    reveal_strlit("enablewait=");
    reveal_strlit("disconnectwait=");
    reveal_strlit("debug=");
    reveal_strlit("enablewait");
    reveal_strlit("disconnectwait");
    reveal_strlit("debug");
    reveal_strlit("0");
    reveal_strlit("1");
    lemma_decimal_digits(config.enable_wait as nat);
    lemma_decimal_digits(config.disconnect_wait as nat);
    lemma_decimal_round_trip(config.enable_wait as nat, u64::MAX as nat);
    lemma_decimal_round_trip(config.disconnect_wait as nat, u64::MAX as nat);
    assert("enablewait="@ =~= "enablewait"@ + seq!['=']);
    assert("disconnectwait="@ =~= "disconnectwait"@ + seq!['=']);
    assert("debug="@ =~= "debug"@ + seq!['=']);
    assert(all_digits(flag) && flag.len() == 1);
    assert(flag.drop_last() =~= Seq::<char>::empty());
    assert(digits_value(flag.drop_last()) == 0);
    assert(unsigned_of(flag, u32::MAX as nat) == Some(if config.debug {
        0nat
    } else {
        1nat
    }));
    lemma_setting("enablewait"@, decimal(config.enable_wait as nat));
    lemma_setting("disconnectwait"@, decimal(config.disconnect_wait as nat));
    lemma_setting("debug"@, flag);
    assert forall|i: int| 0 <= i < lines.len() implies is_plain_line(#[trigger] lines[i]) by {}
    lemma_lines_of_joined(lines);
    lemma_comment(start, lines[0]);
    lemma_comment(start, lines[1]);
    lemma_comment(start, lines[2]);
    lemma_comment(start, lines[3]);
    assert(start.with_line(lines[4]) == Ok::<AutoApConfig, ConfigError>(enabled));
    lemma_comment(enabled, lines[5]);
    lemma_comment(enabled, lines[6]);
    lemma_comment(enabled, lines[7]);
    lemma_comment(enabled, lines[8]);
    assert(enabled.with_line(lines[9]) == Ok::<AutoApConfig, ConfigError>(both));
    lemma_comment(both, lines[10]);
    lemma_comment(both, lines[11]);
    lemma_comment(both, lines[12]);
    lemma_comment(both, lines[13]);
    lemma_comment(both, lines[14]);
    assert(both.with_line(lines[15]) == Ok::<AutoApConfig, ConfigError>(config));
    lemma_step(start, start, lines, 0);
    lemma_step(start, start, lines, 1);
    lemma_step(start, start, lines, 2);
    lemma_step(start, start, lines, 3);
    lemma_step(start, enabled, lines, 4);
    lemma_step(enabled, enabled, lines, 5);
    lemma_step(enabled, enabled, lines, 6);
    lemma_step(enabled, enabled, lines, 7);
    lemma_step(enabled, enabled, lines, 8);
    lemma_step(enabled, both, lines, 9);
    lemma_step(both, both, lines, 10);
    lemma_step(both, both, lines, 11);
    lemma_step(both, both, lines, 12);
    lemma_step(both, both, lines, 13);
    lemma_step(both, both, lines, 14);
    lemma_step(both, config, lines, 15);
    assert(lines.skip(0) =~= lines);
    assert(lines.skip(16).len() == 0);
}

} // verus!
