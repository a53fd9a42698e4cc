//! The command that brings spend counters in line with recorded usage.
use crate::ids::Uuid;
use crate::text::{decimal_text, parse_unsigned, same_text};
use vstd::prelude::*;
use vstd::string::StringExecFns;

verus! {

/// How many organizations are looked at together.
pub const BATCH_SIZE: i64 = 100;

/// How long a statement may take, in seconds, where nothing else is said.
pub const DEFAULT_TIMEOUT_SECONDS: u64 = 300;

/// The longest timeout of a statement, in whole seconds.
pub const MAX_TIMEOUT_SECONDS: u64 = 2_147_483;

/// What the command is asked to do.
#[derive(Debug, Clone, Copy, PartialEq, Eq, Structural)]
pub struct Options {
    /// The only organization to look at, or all of them.
    pub organization_id: Option<Uuid>,
    pub statement_timeout_secs: u64,
    pub include_ready: bool,
    pub dry_run: bool,
}

/// What the command does where nothing is asked.
pub open spec fn default_options() -> Options {
    Options {
        organization_id: None,
        statement_timeout_secs: DEFAULT_TIMEOUT_SECONDS,
        include_ready: false,
        dry_run: false,
    }
}

/// Whether an argument asks for help.
pub open spec fn asks_for_help(arg: Seq<char>) -> bool {
    arg == "--help"@ || arg == "-h"@
}

/// What the arguments from the first on ask for, beyond what was asked so far;
/// or why they are refused.
pub open spec fn options_from(args: Seq<Seq<char>>, so_far: Options) -> Result<Options, Seq<char>>
    decreases args.len(),
{
    if args.len() == 0 {
        Ok(so_far)
    } else if args[0] == "--organization"@ {
        if args.len() == 1 {
            Err("--organization needs a UUID"@)
        } else {
            match crate::ids::parsed_uuid(args[1]) {
                Some(value) => options_from(
                    args.skip(2),
                    Options { organization_id: Some(Uuid { value }), ..so_far },
                ),
                None => Err("invalid organization UUID: "@ + args[1]),
            }
        }
    } else if args[0] == "--statement-timeout-seconds"@ {
        if args.len() == 1 {
            Err("--statement-timeout-seconds needs an integer"@)
        } else {
            match crate::text::unsigned_value(args[1]) {
                Some(seconds) => if 0 < seconds <= MAX_TIMEOUT_SECONDS {
                    options_from(
                        args.skip(2),
                        Options { statement_timeout_secs: seconds, ..so_far },
                    )
                } else {
                    Err(
                        "--statement-timeout-seconds must produce a timeout between 1ms and 2147483647ms"@,
                    )
                },
                None => Err("invalid timeout seconds: "@ + args[1]),
            }
        }
    } else if args[0] == "--include-ready"@ {
        options_from(args.skip(1), Options { include_ready: true, ..so_far })
    } else if args[0] == "--dry-run"@ {
        options_from(args.skip(1), Options { dry_run: true, ..so_far })
    } else {
        Err("unknown argument "@ + args[0] + "; use --help"@)
    }
}

/// Reads the arguments of the command. Asking for help anywhere among them asks
/// for nothing else.
pub fn parse_args(args: &Vec<String>) -> (r: Result<Option<Options>, String>)
    ensures
        ({
            let given = crate::text::list_view(args@);
            if exists|i: int| 0 <= i < given.len() && asks_for_help(#[trigger] given[i]) {
                r == Ok::<Option<Options>, String>(None)
            } else {
                match options_from(given, default_options()) {
                    Ok(options) => r == Ok::<Option<Options>, String>(Some(options)),
                    Err(message) => r is Err && r->Err_0@ == message,
                }
            }
        }),
{
    let ghost given = crate::text::list_view(args@);
    let mut i: usize = 0;
    while i < args.len()
        invariant
            i <= args@.len(),
            given == crate::text::list_view(args@),
            forall|k: int| 0 <= k < i ==> !asks_for_help(#[trigger] given[k]),
        decreases args.len() - i,
    {
        assert(given[i as int] == args@[i as int]@);
        if same_text(args[i].as_str(), "--help") || same_text(args[i].as_str(), "-h") {
            return Ok(None);
        }
        i = i + 1;
    }
    let mut options = Options {
        organization_id: None,
        statement_timeout_secs: DEFAULT_TIMEOUT_SECONDS,
        include_ready: false,
        dry_run: false,
    };
    let mut next: usize = 0;
    assert(given.skip(0) =~= given);
    while next < args.len()
        invariant
            next <= args@.len(),
            given == crate::text::list_view(args@),
            options_from(given, default_options()) == options_from(
                given.skip(next as int),
                options,
            ),
            forall|k: int| 0 <= k < given.len() ==> !asks_for_help(#[trigger] given[k]),
        decreases args.len() - next,
    {
        let ghost rest = given.skip(next as int);
        assert(rest[0] == args@[next as int]@);
        let arg = args[next].as_str();
        if same_text(arg, "--organization") {
            if next == args.len() - 1 {
                return Err("--organization needs a UUID".to_owned());
            }
            assert(rest[1] == args@[next + 1]@);
            match Uuid::parse_str(args[next + 1].as_str()) {
                Some(id) => {
                    options.organization_id = Some(id);
                },
                None => {
                    let mut message = "invalid organization UUID: ".to_owned();
                    message.append(args[next + 1].as_str());
                    return Err(message);
                },
            }
            assert(rest.skip(2) =~= given.skip(next + 2));
            next = next + 2;
        } else if same_text(arg, "--statement-timeout-seconds") {
            if next == args.len() - 1 {
                return Err("--statement-timeout-seconds needs an integer".to_owned());
            }
            assert(rest[1] == args@[next + 1]@);
            match parse_unsigned(args[next + 1].as_str()) {
                Some(seconds) => {
                    if seconds == 0 || seconds > MAX_TIMEOUT_SECONDS {
                        return Err(
                            "--statement-timeout-seconds must produce a timeout between 1ms and 2147483647ms".to_owned(),
                        );
                    }
                    options.statement_timeout_secs = seconds;
                },
                None => {
                    let mut message = "invalid timeout seconds: ".to_owned();
                    message.append(args[next + 1].as_str());
                    return Err(message);
                },
            }
            assert(rest.skip(2) =~= given.skip(next + 2));
            next = next + 2;
        } else if same_text(arg, "--include-ready") {
            options.include_ready = true;
            assert(rest.skip(1) =~= given.skip(next + 1));
            next = next + 1;
        } else if same_text(arg, "--dry-run") {
            options.dry_run = true;
            assert(rest.skip(1) =~= given.skip(next + 1));
            next = next + 1;
        } else {
            let mut message = "unknown argument ".to_owned();
            message.append(arg);
            message.append("; use --help");
            return Err(message);
        }
    }
    assert(given.skip(given.len() as int) =~= seq![]);
    Ok(Some(options))
}

/// An accepted timeout fits the setting of the database: from one millisecond
/// to the largest signed 32-bit number of them.
pub proof fn law_accepted_timeouts_fit(args: Seq<Seq<char>>, so_far: Options)
    requires
        1 <= so_far.statement_timeout_secs * 1000 <= i32::MAX,
    ensures
        options_from(args, so_far) matches Ok(options) ==> 1 <= options.statement_timeout_secs * 1000
            <= i32::MAX,
    decreases args.len(),
{
    if args.len() == 0 {
    } else if args[0] == "--organization"@ {
        if args.len() > 1 {
            match crate::ids::parsed_uuid(args[1]) {
                Some(value) => {
                    law_accepted_timeouts_fit(
                        args.skip(2),
                        Options { organization_id: Some(Uuid { value }), ..so_far },
                    );
                },
                None => {},
            }
        }
    } else if args[0] == "--statement-timeout-seconds"@ {
        if args.len() > 1 {
            match crate::text::unsigned_value(args[1]) {
                Some(seconds) => {
                    if 0 < seconds <= MAX_TIMEOUT_SECONDS {
                        law_accepted_timeouts_fit(
                            args.skip(2),
                            Options { statement_timeout_secs: seconds, ..so_far },
                        );
                    }
                },
                None => {},
            }
        }
    } else if args[0] == "--include-ready"@ {
        law_accepted_timeouts_fit(args.skip(1), Options { include_ready: true, ..so_far });
    } else if args[0] == "--dry-run"@ {
        law_accepted_timeouts_fit(args.skip(1), Options { dry_run: true, ..so_far });
    }
}

/// What was found out about the counters of one organization.
#[derive(Debug, Clone, Copy, PartialEq, Eq, Structural)]
pub struct PreparedBackfill {
    /// Whether the counters differ from recorded usage.
    pub drifted: bool,
    /// Whether there is anything to write.
    pub needs_apply: bool,
}

/// What is done about one organization.
#[derive(Debug, Clone, Copy, PartialEq, Eq, Structural)]
pub struct Reconciliation {
    pub drifted: bool,
    pub apply: bool,
}

/// Decides what is done about one organization. One whose counters were ready
/// has not drifted; a dry run writes nothing.
pub fn reconcile_one(prepared: Option<PreparedBackfill>, dry_run: bool) -> (r: Reconciliation)
    ensures
        r.drifted == (prepared matches Some(p) && p.drifted),
        r.apply == (prepared matches Some(p) && p.needs_apply && !dry_run),
{
    match prepared {
        None => Reconciliation { drifted: false, apply: false },
        Some(p) => Reconciliation { drifted: p.drifted, apply: p.needs_apply && !dry_run },
    }
}

/// Ends the command: a dry run that found drift fails.
pub fn finish(dry_run: bool, drifted: u64) -> (r: Result<(), String>)
    ensures
        match r {
            Ok(_) => !dry_run || drifted == 0,
            Err(message) => dry_run && drifted > 0 && message@ == "spend counter drift found in "@
                + crate::text::decimal(drifted as nat) + " organizations; nothing was applied"@,
        },
{
    if dry_run && drifted > 0 {
        let mut message = "spend counter drift found in ".to_owned();
        message.append(decimal_text(drifted).as_str());
        message.append(" organizations; nothing was applied");
        Err(message)
    } else {
        Ok(())
    }
}

/// After which organization the next batch begins, or that there is none.
pub fn next_batch(ids: &Vec<Uuid>) -> (r: Option<Uuid>)
    ensures
        r == (if ids@.len() == 0 {
            None
        } else {
            Some(ids@.last())
        }),
{
    if ids.len() == 0 {
        None
    } else {
        Some(ids[ids.len() - 1])
    }
}

/// What the command does where nothing is asked: it looks at every organization
/// that is not ready, gives a statement five minutes, and writes what it finds.
pub proof fn law_nothing_asked_is_the_usual_run(so_far: Options, arg: Seq<char>)
    ensures
        options_from(seq![], so_far) == Ok::<Options, Seq<char>>(so_far),
        default_options().organization_id is None,
        default_options().statement_timeout_secs == 300,
        !default_options().include_ready,
        !default_options().dry_run,
        asks_for_help(arg) <==> arg == "--help"@ || arg == "-h"@,
{
}

/// Each argument changes one thing and leaves the others as they were; an
/// argument that is not known, or one without its value, is refused.
pub proof fn law_each_argument_changes_one_thing(
    rest: Seq<Seq<char>>,
    value: Seq<char>,
    so_far: Options,
    arg: Seq<char>,
)
    ensures
        options_from(seq!["--dry-run"@] + rest, so_far) == options_from(
            rest,
            (Options { dry_run: true, ..so_far }),
        ),
        options_from(seq!["--include-ready"@] + rest, so_far) == options_from(
            rest,
            (Options { include_ready: true, ..so_far }),
        ),
        crate::ids::parsed_uuid(value) matches Some(id) ==> options_from(
            seq!["--organization"@, value] + rest,
            so_far,
        ) == options_from(
            rest,
            (Options { organization_id: Some((Uuid { value: id })), ..so_far }),
        ),
        crate::ids::parsed_uuid(value) is None ==> options_from(
            seq!["--organization"@, value] + rest,
            so_far,
        ) == Err::<Options, Seq<char>>("invalid organization UUID: "@ + value),
        options_from(seq!["--organization"@], so_far) == Err::<Options, Seq<char>>(
            "--organization needs a UUID"@,
        ),
        crate::text::unsigned_value(value) matches Some(seconds) ==> 1 <= seconds <= 2_147_483
            ==> options_from(seq!["--statement-timeout-seconds"@, value] + rest, so_far)
            == options_from(rest, (Options { statement_timeout_secs: seconds, ..so_far })),
        crate::text::unsigned_value(value) matches Some(seconds) ==> !(1 <= seconds <= 2_147_483)
            ==> options_from(seq!["--statement-timeout-seconds"@, value] + rest, so_far) == Err::<
            Options,
            Seq<char>,
        >("--statement-timeout-seconds must produce a timeout between 1ms and 2147483647ms"@),
        crate::text::unsigned_value(value) is None ==> options_from(
            seq!["--statement-timeout-seconds"@, value] + rest,
            so_far,
        ) == Err::<Options, Seq<char>>("invalid timeout seconds: "@ + value),
        options_from(seq!["--statement-timeout-seconds"@], so_far) == Err::<Options, Seq<char>>(
            "--statement-timeout-seconds needs an integer"@,
        ),
        arg != "--organization"@ && arg != "--statement-timeout-seconds"@ && arg
            != "--include-ready"@ && arg != "--dry-run"@ ==> options_from(seq![arg] + rest, so_far)
            == Err::<Options, Seq<char>>("unknown argument "@ + arg + "; use --help"@),
{
    reveal_strlit("--organization");
    reveal_strlit("--statement-timeout-seconds");
    reveal_strlit("--include-ready");
    reveal_strlit("--dry-run");
    assert("--organization"@[2] == 'o' && "--statement-timeout-seconds"@[2] == 's'
        && "--include-ready"@[2] == 'i' && "--dry-run"@[2] == 'd');
    assert((seq!["--dry-run"@] + rest).skip(1) =~= rest);
    assert((seq!["--include-ready"@] + rest).skip(1) =~= rest);
    assert((seq!["--organization"@, value] + rest).skip(2) =~= rest);
    assert((seq!["--statement-timeout-seconds"@, value] + rest).skip(2) =~= rest);
    assert((seq![arg] + rest)[0] == arg);
}

/// A dry run writes nothing and fails exactly where it found drift; any other run
/// writes what is needed and ends well.
pub proof fn law_dry_runs_only_report(
    prepared: PreparedBackfill,
    dry_run: bool,
    drifted: u64,
    one: Reconciliation,
    end: Result<(), String>,
)
    requires
        call_ensures(reconcile_one, (Some(prepared), dry_run), one),
        call_ensures(finish, (dry_run, drifted), end),
    ensures
        dry_run ==> !one.apply,
        !dry_run ==> one.apply == prepared.needs_apply && end is Ok,
        one.drifted == prepared.drifted,
        dry_run ==> (end is Err <==> drifted > 0),
        end matches Err(message) ==> message@ == "spend counter drift found in "@
            + crate::text::decimal(drifted as nat) + " organizations; nothing was applied"@,
{
}

/// What was ready before is neither changed nor counted as drift.
pub proof fn law_ready_counters_are_left_alone(dry_run: bool, one: Reconciliation)
    requires
        call_ensures(reconcile_one, (None::<PreparedBackfill>, dry_run), one),
    ensures
        !one.apply && !one.drifted,
{
}

/// The next batch begins after the last organization of this one, and an empty
/// batch is the end.
pub proof fn law_batches_follow_each_other(ids: Vec<Uuid>, r: Option<Uuid>)
    requires
        call_ensures(next_batch, (&ids,), r),
    ensures
        r is None <==> ids@.len() == 0,
        ids@.len() > 0 ==> r == Some(ids@[ids@.len() - 1]),
{
}

/// Asking for help anywhere asks for nothing else; otherwise the arguments are
/// read from the first to the last, beginning with what is usual.
pub proof fn law_help_comes_before_all_else(
    args: Vec<String>,
    i: int,
    r: Result<Option<Options>, String>,
)
    requires
        call_ensures(parse_args, (&args,), r),
    ensures
        0 <= i < args@.len() && (args@[i]@ == "--help"@ || args@[i]@ == "-h"@) ==> r == Ok::<
            Option<Options>,
            String,
        >(None),
        args@.len() == 0 ==> r == Ok::<Option<Options>, String>(
            Some(
                (Options {
                    organization_id: None,
                    statement_timeout_secs: 300,
                    include_ready: false,
                    dry_run: false,
                }),
            ),
        ),
        (forall|k: int|
            0 <= k < args@.len() ==> (#[trigger] args@[k])@ != "--help"@ && args@[k]@ != "-h"@)
            ==> (r matches Ok(answer) ==> answer is Some),
{
    let given = crate::text::list_view(args@);
    if 0 <= i < args@.len() && (args@[i]@ == "--help"@ || args@[i]@ == "-h"@) {
        assert(asks_for_help(given[i]));
    }
    if forall|k: int|
        0 <= k < args@.len() ==> (#[trigger] args@[k])@ != "--help"@ && args@[k]@ != "-h"@ {
        assert forall|k: int| 0 <= k < given.len() implies !asks_for_help(#[trigger] given[k]) by {
            assert(given[k] == args@[k]@);
        }
    }
}

} // verus!
