//! Parsing with the language model first and the rule-based parser as the
//! fallback.
//!
//! The call to the model is the caller's (it is a network request); this
//! module decides what to do before it and with its outcome.
use vstd::prelude::*;
use crate::config::{ai_configured, ConfigManager, SpecAppConfig};
use crate::datetime::{local_now, LocalDateTime};
use crate::parser::cors::{ParsedReminder, SpecParsedReminder};
use crate::parser::parser_regexp::{
    parse_failure, parse_input_at, parse_spec, parses_within_bounds, ParseError,
};
use crate::text::{owned, push_str_chars, string_from_chars};

verus! {

/// Parses with the language model when it is configured, else (or when
/// the model fails) with the rules.
#[derive(Debug, Clone)]
pub struct HybridParser {
    use_ai: bool,
    config_manager: ConfigManager,
    quiet: bool,
}

/// What a `HybridParser` is made of.
pub struct SpecHybridParser {
    pub use_ai: bool,
    pub config: SpecAppConfig,
    pub quiet: bool,
}

impl View for HybridParser {
    type V = SpecHybridParser;

    closed spec fn view(&self) -> SpecHybridParser {
        SpecHybridParser { use_ai: self.use_ai, config: self.config_manager@, quiet: self.quiet }
    }
}

/// A parse result with the settings' defaults filled in: the default list
/// when it names none, the default alert times when it has none.
pub open spec fn with_defaults(p: SpecParsedReminder, c: SpecAppConfig) -> SpecParsedReminder {
    SpecParsedReminder {
        list: if p.list.len() == 0 {
            c.default_list
        } else {
            p.list
        },
        reminder_minutes: if p.reminder_minutes.len() == 0 {
            c.default_reminder_minutes
        } else {
            p.reminder_minutes
        },
        ..p
    }
}

/// Filling in defaults twice is filling them in once.
pub proof fn defaults_idempotent(p: SpecParsedReminder, c: SpecAppConfig)
    ensures
        with_defaults(with_defaults(p, c), c) == with_defaults(p, c),
{
}

/// With a non-empty default list, a result with defaults always names a
/// list.
pub proof fn defaults_name_a_list(p: SpecParsedReminder, c: SpecAppConfig)
    requires
        c.default_list.len() > 0,
    ensures
        with_defaults(p, c).list.len() > 0,
{
}

/// With a non-empty default list, every result the parser returns names a
/// list, whether it came from the model or from the rules.
pub proof fn results_name_a_list(
    h: SpecHybridParser,
    input: Seq<char>,
    attempt: Option<Result<SpecParsedReminder, Seq<char>>>,
    now: LocalDateTime,
)
    requires
        h.config.default_list.len() > 0,
    ensures
        finish_spec(h, input, attempt, now).1 matches Ok(p) ==> p.list.len() > 0,
{
}

/// When the model was not asked or did not answer, the parser gives what
/// the rule-based parser gives for the same input at the same moment, with
/// the defaults filled in; when the model answered, its reading with the
/// defaults. A quiet parser shows nothing either way.
pub proof fn fallback_is_rule_parse(
    h: SpecHybridParser,
    input: Seq<char>,
    attempt: Option<Result<SpecParsedReminder, Seq<char>>>,
    now: LocalDateTime,
)
    ensures
        !(attempt is Some && attempt->0 is Ok) ==> finish_spec(h, input, attempt, now).1 == match parse_spec(
            input,
            h.config.default_list,
            now,
        ) {
            Ok(p) => Ok::<SpecParsedReminder, ParseError>(with_defaults(p, h.config)),
            Err(e) => Err(e),
        },
        attempt matches Some(Ok(p)) ==> finish_spec(h, input, attempt, now).1 == Ok::<
            SpecParsedReminder,
            ParseError,
        >(with_defaults(p, h.config)),
        h.quiet ==> finish_spec(h, input, attempt, now).0 == Seq::<Seq<char>>::empty(),
{
}

/// Notes the parser shows before it starts (unless quiet).
pub open spec fn start_notes_of(h: SpecHybridParser) -> Seq<Seq<char>> {
    if h.quiet {
        seq![]
    } else if h.use_ai {
        seq!["🤖 使用 AI 解析..."@]
    } else {
        seq!["📝 使用正则解析（未配置 AI）"@]
    }
}

/// What the parser shows and returns once the model has answered (or was
/// not asked): the model's result with defaults when it succeeded; else the
/// rule-based reading of `input` at `now` with defaults.
pub open spec fn finish_spec(
    h: SpecHybridParser,
    input: Seq<char>,
    attempt: Option<Result<SpecParsedReminder, Seq<char>>>,
    now: LocalDateTime,
) -> (Seq<Seq<char>>, Result<SpecParsedReminder, ParseError>) {
    match attempt {
        Some(Ok(p)) => (
            if h.quiet {
                seq![]
            } else {
                seq!["✅ AI 解析成功"@]
            },
            Ok(with_defaults(p, h.config)),
        ),
        _ => {
            let first: Seq<Seq<char>> = match attempt {
                Some(Err(e)) => if h.quiet {
                    seq![]
                } else {
                    seq!["⚠️  AI 解析失败："@ + e + "，回退到正则解析"@]
                },
                _ => seq![],
            };
            match parse_spec(input, h.config.default_list, now) {
                Ok(p) => (
                    if h.quiet {
                        first
                    } else {
                        first.push("✅ 正则解析成功"@)
                    },
                    Ok(with_defaults(p, h.config)),
                ),
                Err(e) => (first, Err(e)),
            }
        },
    }
}

pub open spec fn attempt_view(a: Option<Result<ParsedReminder, String>>) -> Option<
    Result<SpecParsedReminder, Seq<char>>,
> {
    match a {
        Some(Ok(p)) => Some(Ok(p@)),
        Some(Err(e)) => Some(Err(e@)),
        None => None,
    }
}

pub open spec fn notes_view(v: Seq<String>) -> Seq<Seq<char>> {
    v.map_values(|s: String| s@)
}

impl HybridParser {
    /// A parser over the given settings; it uses the model when the settings
    /// configure one.
    pub fn from_config(config_manager: ConfigManager, quiet: bool) -> (r: HybridParser)
        ensures
            r@ == (SpecHybridParser {
                use_ai: ai_configured(config_manager@),
                config: config_manager@,
                quiet: quiet,
            }),
    {
        let use_ai = config_manager.is_ai_configured();
        HybridParser { use_ai, config_manager, quiet }
    }

    /// Whether the model is to be asked first.
    pub fn uses_ai(&self) -> (r: bool)
        ensures
            r == self@.use_ai,
    {
        self.use_ai
    }

    /// The settings.
    pub fn config_manager(&self) -> (r: &ConfigManager)
        ensures
            r@ == self@.config,
    {
        &self.config_manager
    }

    /// `result` with the settings' defaults filled in.
    pub fn apply_defaults(&self, result: ParsedReminder) -> (r: ParsedReminder)
        ensures
            r@ == with_defaults(result@, self@.config),
    {
        let mut result = result;
        if result.list.as_str().is_empty() {
            result.list = owned(self.config_manager.get_default_list());
        }
        if result.reminder_minutes.len() == 0 {
            let d = self.config_manager.get_default_reminder_minutes();
            let mut v: Vec<i32> = Vec::new();
            let mut i: usize = 0;
            while i < d.len()
                invariant
                    i <= d@.len(),
                    v@ == d@.take(i as int),
                decreases d.len() - i,
            {
                v.push(d[i]);
                i = i + 1;
                assert(v@ =~= d@.take(i as int));
            }
            assert(d@.take(d@.len() as int) =~= d@);
            result.reminder_minutes = v;
        }
        result
    }

    /// The notes to show before parsing.
    pub fn start_notes(&self) -> (r: Vec<String>)
        ensures
            notes_view(r@) == start_notes_of(self@),
    {
        let mut v: Vec<String> = Vec::new();
        if !self.quiet {
            if self.use_ai {
                v.push(owned("🤖 使用 AI 解析..."));
            } else {
                v.push(owned("📝 使用正则解析（未配置 AI）"));
            }
        }
        assert(notes_view(v@) =~= start_notes_of(self@));
        v
    }

    /// Finishes a parse of `input` given what the model answered (`None`
    /// when it was not asked): the notes to show, and the result. The rules,
    /// when they are needed, read the input at the current local time.
    pub fn finish_parse(&self, input: &str, attempt: Option<Result<ParsedReminder, String>>) -> (r: (
        Vec<String>,
        Result<ParsedReminder, ParseError>,
    ))
        ensures
            exists|now: LocalDateTime|
                now.valid() && {
                    let (notes, result) = finish_spec(self@, input@, attempt_view(attempt), now);
                    &&& notes_view(r.0@) == notes
                    &&& match r.1 {
                        Ok(p) => result == Ok::<SpecParsedReminder, ParseError>(p@),
                        Err(e) => result == Err::<SpecParsedReminder, ParseError>(e) && parse_failure(
                            input@,
                            now,
                            e,
                        ),
                    }
                },
    {
        let now = local_now();
        self.finish_parse_at(input, attempt, now)
    }

    /// `finish_parse` with the rules reading the input at `now`. The parse
    /// does not fail when the model answered, nor within the bounds of
    /// `parses_within_bounds`.
    pub fn finish_parse_at(
        &self,
        input: &str,
        attempt: Option<Result<ParsedReminder, String>>,
        now: LocalDateTime,
    ) -> (r: (Vec<String>, Result<ParsedReminder, ParseError>))
        requires
            now.valid(),
        ensures
            ({
                let (notes, result) = finish_spec(self@, input@, attempt_view(attempt), now);
                &&& notes_view(r.0@) == notes
                &&& match r.1 {
                    Ok(p) => result == Ok::<SpecParsedReminder, ParseError>(p@),
                    Err(e) => result == Err::<SpecParsedReminder, ParseError>(e) && parse_failure(
                        input@,
                        now,
                        e,
                    ),
                }
            }),
            (attempt matches Some(Ok(_))) || parses_within_bounds(input@, now) ==> r.1 is Ok,
    {
        let ghost att = attempt_view(attempt);
        let mut notes: Vec<String> = Vec::new();
        match attempt {
            Some(Ok(p)) => {
                if !self.quiet {
                    notes.push(owned("✅ AI 解析成功"));
                }
                let result = self.apply_defaults(p);
                assert(notes_view(notes@) =~= finish_spec(self@, input@, att, now).0);
                return (notes, Ok(result));
            },
            Some(Err(e)) => {
                if !self.quiet {
                    let mut m: Vec<char> = Vec::new();
                    push_str_chars(&mut m, "⚠️  AI 解析失败：");
                    push_str_chars(&mut m, e.as_str());
                    push_str_chars(&mut m, "，回退到正则解析");
                    notes.push(string_from_chars(&m));
                }
            },
            None => {},
        }
        let parsed = parse_input_at(input, self.config_manager.get_default_list(), now);
        match parsed {
            Ok(p) => {
                if !self.quiet {
                    notes.push(owned("✅ 正则解析成功"));
                }
                let result = self.apply_defaults(p);
                assert(notes_view(notes@) =~= finish_spec(self@, input@, att, now).0);
                (notes, Ok(result))
            },
            Err(e) => {
                assert(notes_view(notes@) =~= finish_spec(self@, input@, att, now).0);
                (notes, Err(e))
            },
        }
    }
}

/// Filling in defaults only fills what is missing: an empty list becomes
/// the default list and no alert times become the default alert times;
/// everything else of the result is kept.
pub proof fn defaults_fill_only_gaps(p: SpecParsedReminder, c: SpecAppConfig)
    ensures
        with_defaults(p, c).list == if p.list.len() == 0 {
            c.default_list
        } else {
            p.list
        },
        with_defaults(p, c).reminder_minutes == if p.reminder_minutes.len() == 0 {
            c.default_reminder_minutes
        } else {
            p.reminder_minutes
        },
        with_defaults(p, c).title == p.title,
        with_defaults(p, c).due_date == p.due_date,
        with_defaults(p, c).start_date == p.start_date,
        with_defaults(p, c).priority == p.priority,
        with_defaults(p, c).is_urgent == p.is_urgent,
        with_defaults(p, c).recurrence == p.recurrence,
        with_defaults(p, c).location == p.location,
        with_defaults(p, c).tags == p.tags,
{
}

} // verus!
