use vstd::prelude::*;

use crate::alarm::AlarmConfig;

verus! {

#[verifier::external_type_specification]
#[verifier::external_body]
pub struct ExTomlValue(toml::Value);

#[verifier::external_type_specification]
#[verifier::external_body]
#[verifier::reject_recursive_types(K)]
#[verifier::reject_recursive_types(V)]
pub struct ExTomlMap<K, V>(toml::map::Map<K, V>);

#[verifier::external_type_specification]
#[verifier::external_body]
pub struct ExTomlError(toml::de::Error);

/// One of the three fields of the `[Alarm]` section.
#[derive(Debug, Copy, Clone, PartialEq, Eq, Structural)]
pub enum AlarmField {
    Hour,
    Minute,
    Second,
}

/// What was found under a field's key.
#[derive(Debug, Copy, Clone, PartialEq, Eq, Structural)]
pub enum FieldValue {
    Missing,
    Invalid,
    Number(u32),
}

/// Why a configuration text gives no alarm time.
#[derive(Debug, Copy, Clone, PartialEq, Eq, Structural)]
pub enum ConfigError {
    InvalidToml,
    MissingAlarmSection,
    MissingField(AlarmField),
    InvalidField(AlarmField),
}

/// The alarm time made of the three fields, or the error of the first of them
/// (hour, then minute, then second) that is missing or not a `u32`.
pub open spec fn config_from_fields(hour: FieldValue, minute: FieldValue, second: FieldValue) -> Result<
    AlarmConfig,
    ConfigError,
> {
    match hour {
        FieldValue::Missing => Err(ConfigError::MissingField(AlarmField::Hour)),
        FieldValue::Invalid => Err(ConfigError::InvalidField(AlarmField::Hour)),
        FieldValue::Number(h) => match minute {
            FieldValue::Missing => Err(ConfigError::MissingField(AlarmField::Minute)),
            FieldValue::Invalid => Err(ConfigError::InvalidField(AlarmField::Minute)),
            FieldValue::Number(m) => match second {
                FieldValue::Missing => Err(ConfigError::MissingField(AlarmField::Second)),
                FieldValue::Invalid => Err(ConfigError::InvalidField(AlarmField::Second)),
                FieldValue::Number(s) => Ok(AlarmConfig { hour: h, minute: m, second: s }),
            },
        },
    }
}

/// What a TOML value holds, as far as the alarm configuration reads it: an
/// integer, a table of such items by key, or some other value (a string, a
/// float, a boolean, a date-time or an array).
pub enum TomlItem {
    Integer(i64),
    Table(Map<Seq<char>, TomlItem>),
    Other,
}

/// The top-level table of a TOML text, or `None` where the text is not TOML.
pub uninterp spec fn toml_document(text: Seq<char>) -> Option<Map<Seq<char>, TomlItem>>;

/// What a TOML table holds: its keys and, for each, what its value holds.
pub uninterp spec fn table_items(table: toml::Table) -> Map<Seq<char>, TomlItem>;

/// What a TOML value holds; for a table value, its keys and their values' items.
pub uninterp spec fn value_item(value: toml::Value) -> TomlItem;

/// The field that `section` holds under `key`: missing where `section` is not
/// a table or has no such key, a number where the value is an integer that
/// fits in `u32`, and invalid for every other value.
pub open spec fn field_in(section: TomlItem, key: Seq<char>) -> FieldValue {
    match section {
        TomlItem::Table(items) => if items.dom().contains(key) {
            match items[key] {
                TomlItem::Integer(i) => if 0 <= i <= u32::MAX {
                    FieldValue::Number(i as u32)
                } else {
                    FieldValue::Invalid
                },
                _ => FieldValue::Invalid,
            }
        } else {
            FieldValue::Missing
        },
        _ => FieldValue::Missing,
    }
}

/// The alarm time that a TOML document gives: an error where the text is not
/// TOML or has no `Alarm` key, else the fields `hour`, `minute` and `second`
/// of the `Alarm` value. Nothing else in the document matters, and keys are
/// compared exactly.
pub open spec fn config_from_document(document: Option<Map<Seq<char>, TomlItem>>) -> Result<
    AlarmConfig,
    ConfigError,
> {
    match document {
        None => Err(ConfigError::InvalidToml),
        Some(items) => if items.dom().contains("Alarm"@) {
            config_from_fields(
                field_in(items["Alarm"@], "hour"@),
                field_in(items["Alarm"@], "minute"@),
                field_in(items["Alarm"@], "second"@),
            )
        } else {
            Err(ConfigError::MissingAlarmSection)
        },
    }
}

/// Whether `error` names a field that is missing or invalid, after fields
/// that are both numbers.
pub open spec fn field_error_is_due(
    error: ConfigError,
    hour: FieldValue,
    minute: FieldValue,
    second: FieldValue,
) -> bool {
    match error {
        ConfigError::MissingField(AlarmField::Hour) => hour == FieldValue::Missing,
        ConfigError::InvalidField(AlarmField::Hour) => hour == FieldValue::Invalid,
        ConfigError::MissingField(AlarmField::Minute) => hour is Number && minute
            == FieldValue::Missing,
        ConfigError::InvalidField(AlarmField::Minute) => hour is Number && minute
            == FieldValue::Invalid,
        ConfigError::MissingField(AlarmField::Second) => hour is Number && minute is Number
            && second == FieldValue::Missing,
        ConfigError::InvalidField(AlarmField::Second) => hour is Number && minute is Number
            && second == FieldValue::Invalid,
        _ => false,
    }
}

/// Calls `<toml::Table as FromStr>::from_str`.
///
/// Trusted: the parse depends on the text alone, named `toml_document`; it
/// succeeds exactly where that is `Some`, and the table then holds what the
/// name says. Which texts are TOML is not stated.
#[verifier::external_body]
fn parse_table(text: &str) -> (table: Result<toml::Table, toml::de::Error>)
    ensures
        match table {
            Ok(t) => toml_document(text@) == Some(table_items(t)),
            Err(_) => toml_document(text@) is None,
        },
{
    text.parse::<toml::Table>()
}

/// Calls `toml::map::Map::get` on a table.
///
/// Trusted: the value is found exactly where the table has the key (compared
/// exactly), and it holds what the table holds under that key.
#[verifier::external_body]
fn table_get<'a>(table: &'a toml::Table, key: &str) -> (value: Option<&'a toml::Value>)
    ensures
        match value {
            Some(v) => table_items(*table).dom().contains(key@) && value_item(*v) == table_items(
                *table,
            )[key@],
            None => !table_items(*table).dom().contains(key@),
        },
{
    table.get(key)
}

/// Calls `toml::Value::get` with a string key.
///
/// Trusted: as the toml source shows, a value is found only where `value` is
/// a table with that key, and it holds what the table holds under it.
#[verifier::external_body]
fn value_get<'a>(value: &'a toml::Value, key: &str) -> (found: Option<&'a toml::Value>)
    ensures
        match found {
            Some(v) => value_item(*value) matches TomlItem::Table(items) && items.dom().contains(
                key@,
            ) && value_item(*v) == items[key@],
            None => !(value_item(*value) matches TomlItem::Table(items) && items.dom().contains(
                key@,
            )),
        },
{
    value.get(key)
}

/// Calls `toml::Value::try_into::<u32>` on a copy of the value.
///
/// Trusted: as the toml and serde sources show, the conversion succeeds
/// exactly on an integer from 0 to `u32::MAX`, and gives that integer.
#[verifier::external_body]
fn value_to_u32(value: &toml::Value) -> (number: Result<u32, toml::de::Error>)
    ensures
        match number {
            Ok(n) => value_item(*value) == TomlItem::Integer(n as i64),
            Err(_) => !(value_item(*value) matches TomlItem::Integer(i) && 0 <= i <= u32::MAX),
        },
{
    value.clone().try_into::<u32>()
}

impl FieldValue {
    /// What the table `section` holds under `key`, read as a `u32`.
    fn read(section: &toml::Value, key: &str) -> (field: FieldValue)
        ensures
            field == field_in(value_item(*section), key@),
    {
        match value_get(section, key) {
            Some(value) => match value_to_u32(value) {
                Ok(number) => FieldValue::Number(number),
                Err(_) => FieldValue::Invalid,
            },
            None => FieldValue::Missing,
        }
    }
}

impl AlarmConfig {
    /// The alarm time made of the three fields.
    pub fn from_fields(hour: FieldValue, minute: FieldValue, second: FieldValue) -> (config:
        Result<AlarmConfig, ConfigError>)
        ensures
            config == config_from_fields(hour, minute, second),
            hour matches FieldValue::Number(h) ==> minute matches FieldValue::Number(m)
                ==> second matches FieldValue::Number(s) ==> config == Ok::<
                AlarmConfig,
                ConfigError,
            >(AlarmConfig { hour: h, minute: m, second: s }),
            config matches Err(e) ==> field_error_is_due(e, hour, minute, second),
    {
        let h = match hour {
            FieldValue::Missing => { return Err(ConfigError::MissingField(AlarmField::Hour)); },
            FieldValue::Invalid => { return Err(ConfigError::InvalidField(AlarmField::Hour)); },
            FieldValue::Number(h) => h,
        };
        let m = match minute {
            FieldValue::Missing => { return Err(ConfigError::MissingField(AlarmField::Minute)); },
            FieldValue::Invalid => { return Err(ConfigError::InvalidField(AlarmField::Minute)); },
            FieldValue::Number(m) => m,
        };
        let s = match second {
            FieldValue::Missing => { return Err(ConfigError::MissingField(AlarmField::Second)); },
            FieldValue::Invalid => { return Err(ConfigError::InvalidField(AlarmField::Second)); },
            FieldValue::Number(s) => s,
        };
        Ok(AlarmConfig { hour: h, minute: m, second: s })
    }

    /// Reads the alarm time from the `hour`, `minute` and `second` keys of the
    /// `[Alarm]` table of a TOML text.
    pub fn from_toml(text: &str) -> (config: Result<AlarmConfig, ConfigError>)
        ensures
            config == config_from_document(toml_document(text@)),
    {
        let table = match parse_table(text) {
            Ok(table) => table,
            Err(_) => { return Err(ConfigError::InvalidToml); },
        };
        AlarmConfig::from_table(&table)
    }

    /// Reads the alarm time from the `hour`, `minute` and `second` keys of the
    /// `Alarm` value of a parsed TOML table.
    pub fn from_table(table: &toml::Table) -> (config: Result<AlarmConfig, ConfigError>)
        ensures
            config == config_from_document(Some(table_items(*table))),
    {
        let section = match table_get(table, "Alarm") {
            Some(section) => section,
            None => { return Err(ConfigError::MissingAlarmSection); },
        };
        let hour = FieldValue::read(section, "hour");
        let minute = FieldValue::read(section, "minute");
        let second = FieldValue::read(section, "second");
        AlarmConfig::from_fields(hour, minute, second)
    }
}

} // verus!
