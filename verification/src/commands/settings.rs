//! The settings file: what is asked of it, and what kind of value a text
//! stands for.

use crate::text::{parse_integer, parsed_integer};
use vstd::prelude::*;

verus! {

/// What can be done to the settings.
#[derive(Debug, Clone, Copy, PartialEq, Eq, Structural)]
pub enum ConfigAction {
    /// Show where the file is.
    Path,
    /// Show every setting.
    List,
    /// Show the setting of a key.
    Read,
    /// Keep a value under a key.
    Put,
    /// Remove the file.
    Reset,
}

/// Why nothing is done to the settings.
#[derive(Debug, Clone, Copy, PartialEq, Eq, Structural)]
pub enum ConfigRefusal {
    /// `get` without a key.
    MissingKey,
    /// `set` without a key or without a value.
    MissingKeyOrValue,
    /// A word that names no action.
    InvalidAction,
}

/// What is to be done for the word `action`, given whether a key and a value
/// came with it.
pub open spec fn action_for(action: Seq<char>, has_key: bool, has_value: bool) -> Result<
    ConfigAction,
    ConfigRefusal,
> {
    if action == "path"@ {
        Ok(ConfigAction::Path)
    } else if action == "list"@ {
        Ok(ConfigAction::List)
    } else if action == "get"@ {
        if has_key {
            Ok(ConfigAction::Read)
        } else {
            Err(ConfigRefusal::MissingKey)
        }
    } else if action == "set"@ {
        if has_key && has_value {
            Ok(ConfigAction::Put)
        } else {
            Err(ConfigRefusal::MissingKeyOrValue)
        }
    } else if action == "reset"@ {
        Ok(ConfigAction::Reset)
    } else {
        Err(ConfigRefusal::InvalidAction)
    }
}

/// What is to be done for the word `action`: `get` needs a key, `set` a key
/// and a value.
pub fn check_action(action: &str, has_key: bool, has_value: bool) -> (out: Result<
    ConfigAction,
    ConfigRefusal,
>)
    ensures
        out == action_for(action@, has_key, has_value),
{
    if *action == *"path" {
        Ok(ConfigAction::Path)
    } else if *action == *"list" {
        Ok(ConfigAction::List)
    } else if *action == *"get" {
        if has_key {
            Ok(ConfigAction::Read)
        } else {
            Err(ConfigRefusal::MissingKey)
        }
    } else if *action == *"set" {
        if has_key && has_value {
            Ok(ConfigAction::Put)
        } else {
            Err(ConfigRefusal::MissingKeyOrValue)
        }
    } else if *action == *"reset" {
        Ok(ConfigAction::Reset)
    } else {
        Err(ConfigRefusal::InvalidAction)
    }
}

/// A value of the settings file. A number with a fraction is kept as the
/// text that was given for it.
#[derive(Debug)]
pub enum ConfigValue {
    Boolean(bool),
    Integer(i64),
    Float(String),
    Text(String),
}

/// What a value holds, as plain values.
pub enum ConfigValueView {
    Boolean(bool),
    Integer(int),
    Float(Seq<char>),
    Text(Seq<char>),
}

impl View for ConfigValue {
    type V = ConfigValueView;

    open spec fn view(&self) -> ConfigValueView {
        match self {
            ConfigValue::Boolean(b) => ConfigValueView::Boolean(*b),
            ConfigValue::Integer(n) => ConfigValueView::Integer(*n as int),
            ConfigValue::Float(t) => ConfigValueView::Float(t@),
            ConfigValue::Text(t) => ConfigValueView::Text(t@),
        }
    }
}

/// The value that `text` stands for, where `reads_as_float` says whether the
/// text can be read as a number with a fraction. The kinds are tried in this
/// order: the words `true` and `false`; a whole number; a number with a
/// fraction; and what is none of these is a text.
pub open spec fn inferred(text: Seq<char>, reads_as_float: bool) -> ConfigValueView {
    if text == "true"@ {
        ConfigValueView::Boolean(true)
    } else if text == "false"@ {
        ConfigValueView::Boolean(false)
    } else {
        match parsed_integer(text) {
            Some(n) => ConfigValueView::Integer(n),
            None => if reads_as_float {
                ConfigValueView::Float(text)
            } else {
                ConfigValueView::Text(text)
            },
        }
    }
}

/// The value that `text` stands for.
pub fn infer_value(text: &str, reads_as_float: bool) -> (value: ConfigValue)
    ensures
        value@ == inferred(text@, reads_as_float),
{
    if *text == *"true" {
        ConfigValue::Boolean(true)
    } else if *text == *"false" {
        ConfigValue::Boolean(false)
    } else {
        match parse_integer(text) {
            Some(n) => ConfigValue::Integer(n),
            None => if reads_as_float {
                ConfigValue::Float(text.to_string())
            } else {
                ConfigValue::Text(text.to_string())
            },
        }
    }
}

} // verus!
