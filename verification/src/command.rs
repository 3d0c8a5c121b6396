use vstd::prelude::*;
use vstd::string::StringExecFns;

verus! {

/// The closed set of daemon subcommands.  Each variant is either nullary or
/// carries exactly one string payload; the variant and its payload arity are
/// fixed at construction.
#[derive(Debug)]
pub enum Command {
    ListModes,
    ListOutputs,
    CurrentMode,
    CurrentOutput,
    CurrentResolution,
    CurrentRotation,
    CurrentRefresh,
    CurrentBackend,
    SetMode { mode: String },
    SetOutput { output: String },
    SetRotation { rotation: String },
    GetScreenshot,
    MapTouchScreen,
    MinToMaxResolution,
}

/// The per-run modifiers attached to one command: an optional target-screen
/// identifier and an ordered sequence of free-form trailing tokens.
pub struct InvocationContext {
    pub screen: Option<String>,
    pub args: Vec<String>,
}

impl InvocationContext {
    pub open spec fn screen_view(&self) -> Option<Seq<char>> {
        match self.screen {
            Option::Some(s) => Option::Some(s@),
            Option::None => Option::None,
        }
    }

    pub open spec fn args_view(&self) -> Seq<Seq<char>> {
        self.args.deep_view()
    }
}

/// The request keyword of each variant, spelled in lowerCamelCase.
pub open spec fn keyword(c: Command) -> Seq<char> {
    match c {
        Command::ListModes => "listModes"@,
        Command::ListOutputs => "listOutputs"@,
        Command::CurrentMode => "currentMode"@,
        Command::CurrentOutput => "currentOutput"@,
        Command::CurrentResolution => "currentResolution"@,
        Command::CurrentRotation => "currentRotation"@,
        Command::CurrentRefresh => "currentRefresh"@,
        Command::CurrentBackend => "currentBackend"@,
        Command::SetMode { .. } => "setMode"@,
        Command::SetOutput { .. } => "setOutput"@,
        Command::SetRotation { .. } => "setRotation"@,
        Command::GetScreenshot => "getScreenshot"@,
        Command::MapTouchScreen => "mapTouchScreen"@,
        Command::MinToMaxResolution => "minToMaxResolution"@,
    }
}

/// The payload of a variant, if it carries one.
pub open spec fn payload(c: Command) -> Option<Seq<char>> {
    match c {
        Command::SetMode { mode } => Option::Some(mode@),
        Command::SetOutput { output } => Option::Some(output@),
        Command::SetRotation { rotation } => Option::Some(rotation@),
        _ => Option::None,
    }
}

/// What the payload contributes to the request: one separating space and the
/// payload verbatim, with no escaping, or nothing at all.
pub open spec fn payload_part(c: Command) -> Seq<char> {
    match payload(c) {
        Option::Some(p) => " "@ + p,
        Option::None => Seq::<char>::empty(),
    }
}

/// What the target screen contributes: the literal ` --screen ` token and the
/// identifier verbatim, or nothing at all.
pub open spec fn screen_part(screen: Option<Seq<char>>) -> Seq<char> {
    match screen {
        Option::Some(s) => " --screen "@ + s,
        Option::None => Seq::<char>::empty(),
    }
}

/// What the trailing tokens contribute: each token preceded by one space, in
/// the original order; equivalently, a space followed by the tokens joined by
/// single spaces, or nothing when there are none.
pub open spec fn args_part(args: Seq<Seq<char>>) -> Seq<char>
    decreases args.len(),
{
    if args.len() == 0 {
        Seq::<char>::empty()
    } else {
        args_part(args.drop_last()) + " "@ + args.last()
    }
}

/// The whole request line: keyword, then payload (if any), then the screen
/// modifier (if any), then the trailing tokens (if any), in this order and
/// never reordered.
pub open spec fn encoded(c: Command, screen: Option<Seq<char>>, args: Seq<Seq<char>>) -> Seq<char> {
    keyword(c) + payload_part(c) + screen_part(screen) + args_part(args)
}

/// The four rotation payloads that the CLI boundary accepts.
pub open spec fn is_valid_rotation(s: Seq<char>) -> bool {
    s == "0"@ || s == "90"@ || s == "180"@ || s == "270"@
}

impl Command {
    /// Validates a rotation payload the way the CLI boundary does: only the
    /// literal strings `0`, `90`, `180` and `270` yield a command; any other
    /// value is rejected before it can reach the encoder.
    pub fn set_rotation(rotation: String) -> (r: Option<Command>)
        ensures
            r is Some <==> is_valid_rotation(rotation@),
            r matches Some(c) ==> c == (Command::SetRotation { rotation }),
    {
        let valid = rotation == String::from_str("0") || rotation == String::from_str("90")
            || rotation == String::from_str("180") || rotation == String::from_str("270");
        if valid {
            Option::Some(Command::SetRotation { rotation })
        } else {
            Option::None
        }
    }
}

/// The keyword of the command followed by its payload part, as one string.
fn keyword_and_payload(command: &Command) -> (r: String)
    ensures
        r@ == keyword(*command) + payload_part(*command),
{
    match command {
        Command::ListModes => {
            let s = String::from_str("listModes");
            proof {
                assert(s@ + payload_part(*command) =~= s@);
            }
            s
        },
        Command::ListOutputs => {
            let s = String::from_str("listOutputs");
            proof {
                assert(s@ + payload_part(*command) =~= s@);
            }
            s
        },
        Command::CurrentMode => {
            let s = String::from_str("currentMode");
            proof {
                assert(s@ + payload_part(*command) =~= s@);
            }
            s
        },
        Command::CurrentOutput => {
            let s = String::from_str("currentOutput");
            proof {
                assert(s@ + payload_part(*command) =~= s@);
            }
            s
        },
        Command::CurrentResolution => {
            let s = String::from_str("currentResolution");
            proof {
                assert(s@ + payload_part(*command) =~= s@);
            }
            s
        },
        Command::CurrentRotation => {
            let s = String::from_str("currentRotation");
            proof {
                assert(s@ + payload_part(*command) =~= s@);
            }
            s
        },
        Command::CurrentRefresh => {
            let s = String::from_str("currentRefresh");
            proof {
                assert(s@ + payload_part(*command) =~= s@);
            }
            s
        },
        Command::CurrentBackend => {
            let s = String::from_str("currentBackend");
            proof {
                assert(s@ + payload_part(*command) =~= s@);
            }
            s
        },
        Command::SetMode { mode } => {
            let mut s = String::from_str("setMode");
            s.append(" ");
            s.append(mode.as_str());
            proof {
                assert(("setMode"@ + " "@) + mode@ =~= "setMode"@ + (" "@ + mode@));
            }
            s
        },
        Command::SetOutput { output } => {
            let mut s = String::from_str("setOutput");
            s.append(" ");
            s.append(output.as_str());
            proof {
                assert(("setOutput"@ + " "@) + output@ =~= "setOutput"@ + (" "@ + output@));
            }
            s
        },
        Command::SetRotation { rotation } => {
            let mut s = String::from_str("setRotation");
            s.append(" ");
            s.append(rotation.as_str());
            proof {
                assert(("setRotation"@ + " "@) + rotation@ =~= "setRotation"@ + (" "@ + rotation@));
            }
            s
        },
        Command::GetScreenshot => {
            let s = String::from_str("getScreenshot");
            proof {
                assert(s@ + payload_part(*command) =~= s@);
            }
            s
        },
        Command::MapTouchScreen => {
            let s = String::from_str("mapTouchScreen");
            proof {
                assert(s@ + payload_part(*command) =~= s@);
            }
            s
        },
        Command::MinToMaxResolution => {
            let s = String::from_str("minToMaxResolution");
            proof {
                assert(s@ + payload_part(*command) =~= s@);
            }
            s
        },
    }
}

/// Builds the single-line request sent to the daemon for one command and its
/// invocation context, following the fixed grammar: keyword, payload, screen
/// modifier, trailing tokens.  Pure and total: every variant has a keyword
/// and there is no error path.
pub fn build_command_string(command: &Command, ctx: &InvocationContext) -> (r: String)
    ensures
        r@ == encoded(*command, ctx.screen_view(), ctx.args_view()),
{
    let mut cmd = keyword_and_payload(command);
    let ghost head: Seq<char> = cmd@;
    match &ctx.screen {
        Option::Some(screen) => {
            cmd.append(" --screen ");
            cmd.append(screen.as_str());
            proof {
                assert((head + " --screen "@) + screen@ =~= head + (" --screen "@ + screen@));
            }
        },
        Option::None => {
            proof {
                assert(head + Seq::<char>::empty() =~= head);
            }
        },
    }
    let ghost mid: Seq<char> = cmd@;
    proof {
        assert(mid == head + screen_part(ctx.screen_view()));
        assert(mid + args_part(ctx.args_view().take(0)) =~= mid);
    }
    let n: usize = ctx.args.len();
    let mut i: usize = 0;
    while i < n
        invariant
            i <= n,
            n == ctx.args.len(),
            ctx.args_view().len() == n,
            cmd@ == mid + args_part(ctx.args_view().take(i as int)),
        decreases n - i,
    {
        cmd.append(" ");
        cmd.append(ctx.args[i].as_str());
        proof {
            let av = ctx.args_view();
            assert(av[i as int] == ctx.args@[i as int]@);
            assert(av.take(i as int + 1).drop_last() =~= av.take(i as int));
            assert(av.take(i as int + 1).last() == av[i as int]);
            assert(((mid + args_part(av.take(i as int))) + " "@) + av[i as int] =~= mid + ((
            args_part(av.take(i as int)) + " "@) + av[i as int]));
        }
        i = i + 1;
    }
    proof {
        assert(ctx.args_view().take(n as int) =~= ctx.args_view());
    }
    cmd
}

/// Two commands of the same variant (payloads aside).
pub open spec fn same_variant(c1: Command, c2: Command) -> bool {
    match (c1, c2) {
        (Command::ListModes, Command::ListModes) => true,
        (Command::ListOutputs, Command::ListOutputs) => true,
        (Command::CurrentMode, Command::CurrentMode) => true,
        (Command::CurrentOutput, Command::CurrentOutput) => true,
        (Command::CurrentResolution, Command::CurrentResolution) => true,
        (Command::CurrentRotation, Command::CurrentRotation) => true,
        (Command::CurrentRefresh, Command::CurrentRefresh) => true,
        (Command::CurrentBackend, Command::CurrentBackend) => true,
        (Command::SetMode { .. }, Command::SetMode { .. }) => true,
        (Command::SetOutput { .. }, Command::SetOutput { .. }) => true,
        (Command::SetRotation { .. }, Command::SetRotation { .. }) => true,
        (Command::GetScreenshot, Command::GetScreenshot) => true,
        (Command::MapTouchScreen, Command::MapTouchScreen) => true,
        (Command::MinToMaxResolution, Command::MinToMaxResolution) => true,
        _ => false,
    }
}

/// Law: the encoded request always begins with the exact keyword of its
/// command, whatever the payload, screen modifier and trailing tokens are.
pub proof fn lemma_encoded_starts_with_keyword(
    c: Command,
    screen: Option<Seq<char>>,
    args: Seq<Seq<char>>,
)
    ensures
        keyword(c).is_prefix_of(encoded(c, screen, args)),
{
    let k = keyword(c);
    let e = encoded(c, screen, args);
    assert(k =~= e.subrange(0, k.len() as int));
}

/// Law: keywords never collide.  Commands of different variants have
/// different keywords, and no variant's keyword is a prefix of another's, so
/// a request line never starts ambiguously.
pub proof fn lemma_keywords_prefix_free(c1: Command, c2: Command)
    requires
        !same_variant(c1, c2),
    ensures
        keyword(c1) != keyword(c2),
        !keyword(c1).is_prefix_of(keyword(c2)),
{
    reveal_strlit("listModes");
    reveal_strlit("listOutputs");
    reveal_strlit("currentMode");
    reveal_strlit("currentOutput");
    reveal_strlit("currentResolution");
    reveal_strlit("currentRotation");
    reveal_strlit("currentRefresh");
    reveal_strlit("currentBackend");
    reveal_strlit("setMode");
    reveal_strlit("setOutput");
    reveal_strlit("setRotation");
    reveal_strlit("getScreenshot");
    reveal_strlit("mapTouchScreen");
    reveal_strlit("minToMaxResolution");
    let a = keyword(c1);
    let b = keyword(c2);
    if a.is_prefix_of(b) {
        assert(a[0] == b.subrange(0, a.len() as int)[0]);
        assert(a[1] == b.subrange(0, a.len() as int)[1]);
        assert(a[3] == b.subrange(0, a.len() as int)[3]);
        assert(a[4] == b.subrange(0, a.len() as int)[4]);
        if a.len() > 9 {
            assert(a[7] == b.subrange(0, a.len() as int)[7]);
            assert(a[8] == b.subrange(0, a.len() as int)[8]);
            assert(a[9] == b.subrange(0, a.len() as int)[9]);
        }
        assert(false);
    }
    if a == b {
        assert(a =~= b.subrange(0, a.len() as int));
        assert(false);
    }
}

/// Law: a nullary command with no screen and no trailing tokens encodes to
/// exactly its keyword, with no trailing whitespace.
pub proof fn lemma_nullary_bare_is_keyword(c: Command)
    requires
        payload(c) is None,
    ensures
        encoded(c, Option::None, Seq::<Seq<char>>::empty()) == keyword(c),
{
    assert(encoded(c, Option::None, Seq::<Seq<char>>::empty()) =~= keyword(c));
}

/// Law: a payload-carrying command with no screen and no trailing tokens
/// encodes to its keyword, exactly one separating space, and the payload
/// verbatim, with no escaping.
pub proof fn lemma_payload_appended_verbatim(c: Command)
    requires
        payload(c) is Some,
    ensures
        encoded(c, Option::None, Seq::<Seq<char>>::empty()) == keyword(c) + " "@ + payload(
            c,
        )->Some_0,
{
    assert(encoded(c, Option::None, Seq::<Seq<char>>::empty()) =~= keyword(c) + " "@ + payload(
        c,
    )->Some_0);
}

/// Law: the composition order of the request line is fixed — keyword, then
/// payload part, then screen part, then trailing-token part — for every
/// command and every invocation context.
pub proof fn lemma_composition_order(c: Command, screen: Option<Seq<char>>, args: Seq<Seq<char>>)
    ensures
        encoded(c, screen, args) == keyword(c) + payload_part(c) + screen_part(screen) + args_part(
            args,
        ),
{
}

} // verus!
