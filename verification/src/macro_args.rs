//! Arguments of the logging attribute macros, and the run-time policies the
//! generated code follows (retries, throttling, circuit breaking, result levels).
use vstd::prelude::*;
use crate::text::{owned, str_eq};

verus! {

/// The arguments an attribute macro was given, as `#[name("lit")]`,
/// `#[name("a", "b")]` or `#[name(key = value, ...)]`.
pub struct MacroArgs {
    pub max_attempts: Option<u32>,
    pub rate: Option<u32>,
    pub failure_threshold: Option<u32>,
    pub category: Option<String>,
    pub flag_name: Option<String>,
    pub target: Option<String>,
    pub counter_name: Option<String>,
    pub success_level: Option<String>,
    pub error_level: Option<String>,
}

/// The value in a `key = value` argument.
pub enum MetaValue {
    /// An integer literal, with its value when it fits in `u32`.
    Int(Option<u32>),
    /// Anything else.
    Other,
}

/// One argument in the `key = value, ...` form.
pub enum MetaItem {
    /// `key = value`.
    NameValue { name: String, value: MetaValue },
    /// A bare path; its identifier when it is a single one.
    Path(Option<String>),
    /// `name(...)`; its identifier when it is a single one.
    List(Option<String>),
}

/// The arguments as written.
pub enum MacroArgInput {
    /// No arguments.
    Empty,
    /// A literal first: its text when it is a string literal, and, for a string
    /// literal followed by a comma, the second literal (its text when a string).
    Literal { first: Option<String>, second: Option<Option<String>> },
    /// The `key = value, ...` form.
    Items(Vec<MetaItem>),
}

/// `MacroArgs` with nothing set.
pub open spec fn no_args(a: MacroArgs) -> bool {
    &&& a.max_attempts is None
    &&& a.rate is None
    &&& a.failure_threshold is None
    &&& a.category is None
    &&& a.flag_name is None
    &&& a.target is None
    &&& a.counter_name is None
    &&& a.success_level is None
    &&& a.error_level is None
}

/// What one `key = value, ...` item does to the arguments read so far.
pub open spec fn apply_item(a: MacroArgs, item: MetaItem) -> MacroArgs {
    match item {
        MetaItem::NameValue { name, value } => match value {
            MetaValue::Int(v) => if name@ == "max_attempts"@ {
                MacroArgs { max_attempts: v, ..a }
            } else if name@ == "rate"@ {
                MacroArgs { rate: v, ..a }
            } else if name@ == "failure_threshold"@ {
                MacroArgs { failure_threshold: v, ..a }
            } else {
                a
            },
            MetaValue::Other => a,
        },
        MetaItem::Path(Some(id)) => if a.category is None {
            MacroArgs { category: Some(id), ..a }
        } else {
            a
        },
        MetaItem::List(Some(id)) => if a.category is None {
            MacroArgs { category: Some(id), ..a }
        } else {
            a
        },
        _ => a,
    }
}

/// The arguments read from `items`, in order, starting from `a`.
pub open spec fn apply_items(a: MacroArgs, items: Seq<MetaItem>) -> MacroArgs
    decreases items.len(),
{
    if items.len() == 0 {
        a
    } else {
        apply_item(apply_items(a, items.drop_last()), items.last())
    }
}

fn copy_opt(s: &Option<String>) -> (r: Option<String>)
    ensures
        r == *s,
{
    match s {
        Some(x) => Some(x.clone()),
        None => None,
    }
}

impl MacroArgs {
    /// Nothing set.
    pub fn empty() -> (r: MacroArgs)
        ensures
            no_args(r),
    {
        MacroArgs {
            max_attempts: None,
            rate: None,
            failure_threshold: None,
            category: None,
            flag_name: None,
            target: None,
            counter_name: None,
            success_level: None,
            error_level: None,
        }
    }

    fn apply(&mut self, item: &MetaItem)
        ensures
            *final(self) == apply_item(*old(self), *item),
    {
        proof {
            reveal_strlit("max_attempts");
            reveal_strlit("rate");
            reveal_strlit("failure_threshold");
        }
        match item {
            MetaItem::NameValue { name, value } => match value {
                MetaValue::Int(v) => {
                    if str_eq(name.as_str(), "max_attempts") {
                        self.max_attempts = *v;
                    } else if str_eq(name.as_str(), "rate") {
                        self.rate = *v;
                    } else if str_eq(name.as_str(), "failure_threshold") {
                        self.failure_threshold = *v;
                    }
                },
                MetaValue::Other => {},
            },
            MetaItem::Path(Some(id)) => {
                if self.category.is_none() {
                    self.category = Some(id.clone());
                }
            },
            MetaItem::List(Some(id)) => {
                if self.category.is_none() {
                    self.category = Some(id.clone());
                }
            },
            _ => {},
        }
    }

    /// Reads the arguments. A single string literal sets the category, flag name,
    /// target, counter name and success level; a second string literal sets the
    /// error level. In the `key = value` form, integer values set
    /// `max_attempts`, `rate` and `failure_threshold` (an integer that does not fit
    /// clears the setting), and the first bare identifier sets the category.
    pub fn from_input(input: &MacroArgInput) -> (r: MacroArgs)
        ensures
            match *input {
                MacroArgInput::Empty => no_args(r),
                MacroArgInput::Literal { first, second } => match first {
                    None => no_args(r),
                    Some(v) => {
                        &&& r.max_attempts is None && r.rate is None && r.failure_threshold is None
                        &&& r.category == Some(v) && r.flag_name == Some(v) && r.target == Some(v)
                        &&& r.counter_name == Some(v) && r.success_level == Some(v)
                        &&& r.error_level == (match second {
                            Some(Some(e)) => Some(e),
                            _ => None::<String>,
                        })
                    },
                },
                MacroArgInput::Items(items) => r == apply_items(MacroArgs::empty_spec(), items@),
            },
    {
        match input {
            MacroArgInput::Empty => MacroArgs::empty(),
            MacroArgInput::Literal { first, second } => {
                let mut args = MacroArgs::empty();
                match first {
                    None => {},
                    Some(v) => {
                        args.category = Some(v.clone());
                        args.flag_name = Some(v.clone());
                        args.target = Some(v.clone());
                        args.counter_name = Some(v.clone());
                        args.success_level = Some(v.clone());
                        match second {
                            Some(Some(e)) => {
                                args.error_level = Some(e.clone());
                            },
                            _ => {},
                        }
                    },
                }
                args
            },
            MacroArgInput::Items(items) => {
                let mut args = MacroArgs::empty();
                assert(args == MacroArgs::empty_spec());
                let n = items.len();
                let mut i: usize = 0;
                while i < n
                    invariant
                        n == items@.len(),
                        i <= n,
                        args == apply_items(MacroArgs::empty_spec(), items@.take(i as int)),
                    decreases n - i,
                {
                    assert(items@.take(i + 1).drop_last() =~= items@.take(i as int));
                    args.apply(&items[i]);
                    i += 1;
                }
                assert(items@.take(n as int) =~= items@);
                args
            },
        }
    }

    /// The arguments with nothing set.
    pub open spec fn empty_spec() -> MacroArgs {
        MacroArgs {
            max_attempts: None,
            rate: None,
            failure_threshold: None,
            category: None,
            flag_name: None,
            target: None,
            counter_name: None,
            success_level: None,
            error_level: None,
        }
    }
}

} // verus!
