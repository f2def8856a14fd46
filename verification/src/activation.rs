//! The switch on the control channel.
//!
//! [`ActivationDriver`] decides whether the provider's control channel should be
//! up. It says so at once, and again whenever its answer changes. It outlives the
//! tunnel managers: a change from client to server and back goes through one
//! driver, so the switch does not flip on the way. Each change of mode begins a
//! new era, by which the driver tells the manager in charge from former ones.
use vstd::prelude::*;

verus! {

/// Which rule the switch follows.
#[derive(Debug, Clone, Copy, PartialEq, Eq, Structural)]
pub enum Mode {
    /// Outgoing calls: the channel is up in the foreground while no call is.
    Client,
    /// Incoming calls: the channel is always up, since calls arrive on it.
    Server,
}

/// What the driver tells the provider.
#[derive(Debug, Clone, Copy, PartialEq, Eq, Structural)]
pub enum Intent {
    Activate,
    Deactivate,
}

/// What contracts say of an [`ActivationDriver`].
pub struct Switch {
    pub mode: Mode,
    pub foreground: bool,
    /// Live sessions.
    pub active: int,
    /// What the provider was told last.
    pub pushed: bool,
    /// The number of the era. Each change of mode begins a new one.
    pub era: u64,
}

/// What the driver is told.
pub enum SwitchInput {
    SetMode(Mode),
    Bump(int),
    /// A change of the count from a manager that was made in the given era.
    Report(u64, int),
    Foreground(bool),
}

/// Whether the control channel should be up.
pub open spec fn wants_channel(mode: Mode, foreground: bool, active: int) -> bool {
    match mode {
        Mode::Server => true,
        Mode::Client => foreground && active <= 0,
    }
}

/// The era after a given one. Past the last number they begin anew.
pub open spec fn next_era(era: u64) -> u64 {
    if era == u64::MAX {
        0
    } else {
        (era + 1) as u64
    }
}

/// How many of these inputs change the mode.
pub open spec fn mode_changes(inputs: Seq<SwitchInput>) -> nat
    decreases inputs.len(),
{
    if inputs.len() == 0 {
        0
    } else {
        mode_changes(inputs.drop_last()) + (if inputs.last() is SetMode {
            1nat
        } else {
            0
        })
    }
}

/// How to tell a provider whether the channel should be up.
pub open spec fn intent_for(wanted: bool) -> Intent {
    if wanted {
        Intent::Activate
    } else {
        Intent::Deactivate
    }
}

/// What to tell a provider that was told `before` once the answer is `after`.
pub open spec fn push_on_change(before: bool, after: bool) -> Option<Intent> {
    if before == after {
        None
    } else {
        Some(intent_for(after))
    }
}

impl Switch {
    /// Whether the control channel should be up.
    pub open spec fn wants(self) -> bool {
        wants_channel(self.mode, self.foreground, self.active)
    }

    /// A switch at rest: the count is a count, and the provider knows the answer.
    pub open spec fn settled(self) -> bool {
        &&& self.active >= 0
        &&& self.pushed == self.wants()
    }

    /// The switch of a new driver: client mode, no sessions.
    pub open spec fn initial(foreground: bool) -> Switch {
        Switch {
            mode: Mode::Client,
            foreground,
            active: 0,
            pushed: wants_channel(Mode::Client, foreground, 0),
            era: 0,
        }
    }

    /// The same inputs, with the provider told the answer.
    pub open spec fn settle(self) -> Switch {
        Switch { pushed: self.wants(), ..self }
    }

    /// The switch once the count changed by `delta`.
    pub open spec fn counting(self, delta: int) -> Switch {
        Switch {
            active: if self.active + delta < 0 {
                0
            } else {
                self.active + delta
            },
            ..self
        }.settle()
    }

    /// The switch after one input. A report from another era than the switch is
    /// in has no say.
    pub open spec fn next(self, input: SwitchInput) -> Switch {
        match input {
            SwitchInput::SetMode(mode) => Switch {
                mode,
                active: 0,
                era: next_era(self.era),
                ..self
            }.settle(),
            SwitchInput::Bump(delta) => self.counting(delta),
            SwitchInput::Report(era, delta) => if era == self.era {
                self.counting(delta)
            } else {
                self
            },
            SwitchInput::Foreground(foreground) => Switch { foreground, ..self }.settle(),
        }
    }

    /// What the provider is told on one input.
    pub open spec fn told(self, input: SwitchInput) -> Option<Intent> {
        push_on_change(self.pushed, self.next(input).pushed)
    }

    /// The switch after a run of inputs.
    pub open spec fn run(self, inputs: Seq<SwitchInput>) -> Switch
        decreases inputs.len(),
    {
        if inputs.len() == 0 {
            self
        } else {
            self.run(inputs.drop_last()).next(inputs.last())
        }
    }

    /// All that the provider is told in a run of inputs, in order.
    pub open spec fn pushes(self, inputs: Seq<SwitchInput>) -> Seq<Intent>
        decreases inputs.len(),
    {
        if inputs.len() == 0 {
            Seq::empty()
        } else {
            let before = self.run(inputs.drop_last());
            match before.told(inputs.last()) {
                Some(intent) => self.pushes(inputs.drop_last()).push(intent),
                None => self.pushes(inputs.drop_last()),
            }
        }
    }
}

/// All that a provider is told by a driver from its making on, in order.
pub open spec fn history(foreground: bool, inputs: Seq<SwitchInput>) -> Seq<Intent> {
    seq![intent_for(foreground)] + Switch::initial(foreground).pushes(inputs)
}

/// The switch on the control channel.
pub struct ActivationDriver {
    server_mode: bool,
    foreground: bool,
    active: i64,
    last_push: bool,
    era: u64,
}

impl View for ActivationDriver {
    type V = Switch;

    closed spec fn view(&self) -> Switch {
        Switch {
            mode: if self.server_mode {
                Mode::Server
            } else {
                Mode::Client
            },
            foreground: self.foreground,
            active: self.active as int,
            pushed: self.last_push,
            era: self.era,
        }
    }
}

impl ActivationDriver {
    /// Between calls the switch is at rest.
    pub open spec fn wf(&self) -> bool {
        &&& self@.settled()
        &&& self@.active <= i64::MAX
    }

    /// A driver in client mode without sessions, and what to tell the provider.
    /// A provider holds the channel up until it is told otherwise, so it is told
    /// in the background too.
    pub fn new(foreground: bool) -> (r: (ActivationDriver, Option<Intent>))
        ensures
            r.0.wf(),
            r.0@ == Switch::initial(foreground),
            r.1 == Some(
                if foreground {
                    Intent::Activate
                } else {
                    Intent::Deactivate
                },
            ),
    {
        let driver = ActivationDriver {
            server_mode: false,
            foreground,
            active: 0,
            last_push: foreground,
            era: 0,
        };
        let told = if foreground {
            Intent::Activate
        } else {
            Intent::Deactivate
        };
        (driver, Some(told))
    }

    /// Changes the mode. The count starts anew and so does the era, so that
    /// sessions of the mode before have no say in this one: what their manager
    /// reports from here on is passed over.
    pub fn set_mode(&mut self, mode: Mode) -> (told: Option<Intent>)
        requires
            old(self).wf(),
        ensures
            final(self).wf(),
            final(self)@ == old(self)@.next(SwitchInput::SetMode(mode)),
            told == old(self)@.told(SwitchInput::SetMode(mode)),
    {
        self.server_mode = match mode {
            Mode::Server => true,
            Mode::Client => false,
        };
        self.active = 0;
        self.era = if self.era == u64::MAX {
            0
        } else {
            self.era + 1
        };
        self.reconcile()
    }

    /// The era that the driver is in, for a manager to report with.
    pub fn era(&self) -> (era: u64)
        ensures
            era == self@.era,
    {
        self.era
    }

    /// Takes a change of the count from a manager that was made in `era`. In any
    /// later era the manager is a former one, and what it reports is passed over.
    pub fn report_session(&mut self, era: u64, delta: i64) -> (told: Option<Intent>)
        requires
            old(self).wf(),
            era == old(self)@.era ==> old(self)@.active + delta <= i64::MAX,
        ensures
            final(self).wf(),
            final(self)@ == old(self)@.next(SwitchInput::Report(era, delta as int)),
            told == old(self)@.told(SwitchInput::Report(era, delta as int)),
    {
        if era == self.era {
            self.bump_session(delta)
        } else {
            None
        }
    }

    /// Adds `delta` to the count of live sessions, whoever asks. A count below
    /// zero is taken as zero.
    pub fn bump_session(&mut self, delta: i64) -> (told: Option<Intent>)
        requires
            old(self).wf(),
            old(self)@.active + delta <= i64::MAX,
        ensures
            final(self).wf(),
            final(self)@ == old(self)@.next(SwitchInput::Bump(delta as int)),
            told == old(self)@.told(SwitchInput::Bump(delta as int)),
    {
        let sum: i64 = self.active + delta;
        self.active = if sum < 0 {
            0
        } else {
            sum
        };
        self.reconcile()
    }

    /// Takes note of whether the application is in the foreground.
    pub fn set_foreground(&mut self, foreground: bool) -> (told: Option<Intent>)
        requires
            old(self).wf(),
        ensures
            final(self).wf(),
            final(self)@ == old(self)@.next(SwitchInput::Foreground(foreground)),
            told == old(self)@.told(SwitchInput::Foreground(foreground)),
    {
        self.foreground = foreground;
        self.reconcile()
    }

    /// Whether the count can take `delta`.
    pub fn can_count(&self, delta: i64) -> (b: bool)
        ensures
            b == (self@.active + delta <= i64::MAX),
    {
        delta <= 0 || self.active <= i64::MAX - delta
    }

    /// Works the answer out anew and records it as told. The provider hears of
    /// it only where it differs from what it was told last, so doing this again
    /// with nothing changed in between tells it nothing.
    pub fn reconcile(&mut self) -> (told: Option<Intent>)
        ensures
            final(self)@ == old(self)@.settle(),
            told == push_on_change(old(self)@.pushed, old(self)@.wants()),
    {
        let want = self.server_mode || (self.foreground && self.active <= 0);
        let had = self.last_push;
        self.last_push = want;
        if had == want {
            None
        } else if want {
            Some(Intent::Activate)
        } else {
            Some(Intent::Deactivate)
        }
    }
}

/// The switch stays at rest, whatever comes: the count never falls below zero,
/// and what the provider was told last is always the answer of the rule.
pub proof fn law_switch_follows_the_rule(switch: Switch, inputs: Seq<SwitchInput>)
    requires
        switch.settled(),
    ensures
        switch.run(inputs).settled(),
        switch.run(inputs).pushed == switch.run(inputs).wants(),
        switch.run(inputs).active >= 0,
    decreases inputs.len(),
{
    if inputs.len() > 0 {
        law_switch_follows_the_rule(switch, inputs.drop_last());
    }
}

/// The provider is never told the same thing twice in a row: what it is told
/// alternates, the first push differs from what it was told before the run, and
/// the last one is what the switch holds in the end.
pub proof fn law_pushes_alternate(switch: Switch, inputs: Seq<SwitchInput>)
    requires
        switch.settled(),
    ensures
        ({
            let pushes = switch.pushes(inputs);
            let end = switch.run(inputs);
            &&& forall|i: int|
                0 <= i < pushes.len() ==> (#[trigger] pushes[i] == Intent::Activate) == (if i % 2
                    == 0 {
                    !switch.pushed
                } else {
                    switch.pushed
                })
            &&& pushes.len() % 2 == 0 ==> end.pushed == switch.pushed
            &&& pushes.len() % 2 == 1 ==> end.pushed != switch.pushed
            &&& pushes.len() > 0 ==> (pushes.last() == Intent::Activate) == end.pushed
        }),
    decreases inputs.len(),
{
    if inputs.len() > 0 {
        law_pushes_alternate(switch, inputs.drop_last());
        law_switch_follows_the_rule(switch, inputs.drop_last());
    }
}

/// From its making on a driver never tells the provider the same thing twice in a
/// row: no push follows an equal one, the first push of all included.
pub proof fn law_no_push_is_repeated(foreground: bool, inputs: Seq<SwitchInput>)
    ensures
        ({
            let told = history(foreground, inputs);
            forall|i: int, j: int|
                #![trigger told[i], told[j]]
                0 <= i < told.len() && j == i + 1 && j < told.len() ==> told[i] != told[j]
        }),
{
    let start = Switch::initial(foreground);
    let pushes = start.pushes(inputs);
    let told = history(foreground, inputs);
    law_pushes_alternate(start, inputs);
    assert forall|i: int, j: int|
        #![trigger told[i], told[j]]
        0 <= i < told.len() && j == i + 1 && j < told.len() implies told[i] != told[j] by {
        assert(told[j] == pushes[j - 1]);
        assert((pushes[j - 1] == Intent::Activate) == (if (j - 1) % 2 == 0 {
            !start.pushed
        } else {
            start.pushed
        }));
        if i > 0 {
            assert(told[i] == pushes[i - 1]);
            assert((pushes[i - 1] == Intent::Activate) == (if (i - 1) % 2 == 0 {
                !start.pushed
            } else {
                start.pushed
            }));
        }
    }
}

/// Working the answer out again with nothing changed tells the provider nothing
/// and changes nothing, whatever came before.
pub proof fn law_settling_again_is_silent(switch: Switch, inputs: Seq<SwitchInput>)
    requires
        switch.settled(),
    ensures
        ({
            let end = switch.run(inputs);
            &&& end.settle() == end
            &&& push_on_change(end.pushed, end.wants()) is None
        }),
{
    law_switch_follows_the_rule(switch, inputs);
}

/// A provider that does as it was told last has the channel up exactly when the
/// rule says so. This holds from the making of the driver on: it tells the
/// provider something at once.
pub proof fn law_provider_follows_the_rule(foreground: bool, inputs: Seq<SwitchInput>)
    ensures
        ({
            let told = history(foreground, inputs);
            let end = Switch::initial(foreground).run(inputs);
            &&& told.len() > 0
            &&& (told.last() == Intent::Activate) == end.wants()
        }),
{
    let start = Switch::initial(foreground);
    law_pushes_alternate(start, inputs);
    law_switch_follows_the_rule(start, inputs);
    let pushes = start.pushes(inputs);
    if pushes.len() > 0 {
        assert(history(foreground, inputs).last() == pushes.last());
    }
}

/// In server mode the channel stays up: neither the foreground nor sessions
/// have any say.
pub proof fn law_server_mode_is_always_on(switch: Switch, inputs: Seq<SwitchInput>)
    requires
        switch.settled(),
        switch.mode == Mode::Server,
        forall|i: int|
            0 <= i < inputs.len() ==> !(#[trigger] inputs[i] matches SwitchInput::SetMode(
                Mode::Client,
            )),
    ensures
        switch.run(inputs).mode == Mode::Server,
        switch.run(inputs).pushed,
        switch.pushes(inputs) == Seq::<Intent>::empty(),
    decreases inputs.len(),
{
    if inputs.len() > 0 {
        let rest = inputs.drop_last();
        assert forall|i: int| 0 <= i < rest.len() implies !(#[trigger] rest[i] matches SwitchInput::SetMode(
            Mode::Client,
        )) by {
            assert(rest[i] == inputs[i]);
        }
        law_server_mode_is_always_on(switch, rest);
        assert(inputs.last() == inputs[inputs.len() - 1]);
    }
}

/// Handoffs between client and server do not flip the switch of an application
/// in the foreground whose channel is up, as that of an idle client or of any
/// server is: through any run of mode changes, from either mode, the channel
/// stays up and the provider is told nothing.
pub proof fn law_idle_handoff_is_silent(switch: Switch, inputs: Seq<SwitchInput>)
    requires
        switch.settled(),
        switch.foreground,
        switch.mode == Mode::Server || switch.active == 0,
        forall|i: int| 0 <= i < inputs.len() ==> #[trigger] inputs[i] is SetMode,
    ensures
        switch.run(inputs).pushed,
        switch.run(inputs).foreground,
        switch.pushes(inputs) == Seq::<Intent>::empty(),
        inputs.len() > 0 ==> switch.run(inputs).active == 0,
        inputs.len() > 0 ==> inputs.last() == SwitchInput::SetMode(switch.run(inputs).mode),
    decreases inputs.len(),
{
    if inputs.len() > 0 {
        let rest = inputs.drop_last();
        assert forall|i: int| 0 <= i < rest.len() implies #[trigger] rest[i] is SetMode by {
            assert(rest[i] == inputs[i]);
        }
        law_idle_handoff_is_silent(switch, rest);
        assert(inputs.last() == inputs[inputs.len() - 1]);
    }
}

/// A session that comes and goes leaves the switch as it was, and an idle client
/// in the foreground loses the channel while the session is up and has it back
/// afterwards.
pub proof fn law_session_pauses_the_channel(switch: Switch)
    requires
        switch.settled(),
    ensures
        switch.next(SwitchInput::Bump(1)).next(SwitchInput::Bump(-1)) == switch,
        switch.mode == Mode::Client && switch.foreground && switch.active == 0 ==> {
            &&& switch.told(SwitchInput::Bump(1)) == Some(Intent::Deactivate)
            &&& switch.next(SwitchInput::Bump(1)).told(SwitchInput::Bump(-1)) == Some(Intent::Activate)
        },
{
}

/// Ends that were never counted cannot unbalance the switch: however many, they
/// leave a switch without sessions as it is.
pub proof fn law_surplus_ends_change_nothing(switch: Switch, inputs: Seq<SwitchInput>)
    requires
        switch.settled(),
        switch.active == 0,
        forall|i: int|
            0 <= i < inputs.len() ==> (#[trigger] inputs[i] matches SwitchInput::Bump(d) && d <= 0),
    ensures
        switch.run(inputs) == switch,
        switch.pushes(inputs) == Seq::<Intent>::empty(),
    decreases inputs.len(),
{
    if inputs.len() > 0 {
        let rest = inputs.drop_last();
        assert forall|i: int| 0 <= i < rest.len() implies (#[trigger] rest[i] matches SwitchInput::Bump(
            d,
        ) && d <= 0) by {
            assert(rest[i] == inputs[i]);
        }
        law_surplus_ends_change_nothing(switch, rest);
        assert(inputs.last() == inputs[inputs.len() - 1]);
    }
}

/// Late reports have no say: what managers of other eras report, ends and starts
/// alike and however many, leaves the switch as it is, whatever its count, and
/// tells the provider nothing.
pub proof fn law_late_reports_change_nothing(switch: Switch, inputs: Seq<SwitchInput>)
    requires
        switch.settled(),
        forall|i: int|
            0 <= i < inputs.len() ==> (#[trigger] inputs[i] matches SwitchInput::Report(era, _)
                && era != switch.era),
    ensures
        switch.run(inputs) == switch,
        switch.pushes(inputs) == Seq::<Intent>::empty(),
    decreases inputs.len(),
{
    if inputs.len() > 0 {
        let rest = inputs.drop_last();
        assert forall|i: int| 0 <= i < rest.len() implies (#[trigger] rest[i] matches SwitchInput::Report(
            era,
            _,
        ) && era != switch.era) by {
            assert(rest[i] == inputs[i]);
        }
        law_late_reports_change_nothing(switch, rest);
        assert(inputs.last() == inputs[inputs.len() - 1]);
    }
}

/// A change of mode makes a former manager of the one before: whatever else
/// happens, the era that it was made in does not come back, as long as the mode
/// changes fewer times than there are numbers.
pub proof fn law_a_mode_change_begins_a_new_era(switch: Switch, inputs: Seq<SwitchInput>)
    requires
        0 < mode_changes(inputs) <= u64::MAX,
    ensures
        switch.run(inputs).era != switch.era,
{
    lemma_eras_are_counted(switch, inputs);
}

/// The era after a run, by the number of its mode changes.
proof fn lemma_eras_are_counted(switch: Switch, inputs: Seq<SwitchInput>)
    requires
        mode_changes(inputs) <= u64::MAX,
    ensures
        switch.run(inputs).era == (if switch.era + mode_changes(inputs) <= u64::MAX {
            switch.era + mode_changes(inputs)
        } else {
            switch.era + mode_changes(inputs) - u64::MAX - 1
        }),
    decreases inputs.len(),
{
    if inputs.len() > 0 {
        lemma_eras_are_counted(switch, inputs.drop_last());
    }
}

/// A change of mode forgets the sessions of the mode before: apart from the
/// number of the era, what comes after depends on the new mode and the foreground
/// alone.
pub proof fn law_mode_change_forgets_sessions(a: Switch, b: Switch, mode: Mode)
    requires
        a.foreground == b.foreground,
    ensures
        a.next(SwitchInput::SetMode(mode)) == (Switch {
            era: next_era(a.era),
            ..b.next(SwitchInput::SetMode(mode))
        }),
{
}

/// Each input changes its own part of the switch and no other: the foreground is
/// what the application says it is, whatever the mode and the count, the mode is
/// what it was set to, and only setting it moves the era.
pub proof fn law_each_input_changes_its_own_part(switch: Switch, input: SwitchInput)
    ensures
        ({
            let end = switch.next(input);
            &&& input matches SwitchInput::Foreground(b) ==> end.foreground == b
            &&& !(input is Foreground) ==> end.foreground == switch.foreground
            &&& input matches SwitchInput::SetMode(mode) ==> end.mode == mode
            &&& !(input is SetMode) ==> end.mode == switch.mode
            &&& input is SetMode <==> end.era != switch.era
            &&& input is Foreground ==> end.active == switch.active
            &&& input is SetMode ==> end.active == 0
        }),
{
}

/// After any run the foreground is that of the last word on it, wherever in the run
/// it came and whatever came after it, and it stays as it was where there was none.
pub proof fn law_the_last_word_on_the_foreground_counts(
    switch: Switch,
    inputs: Seq<SwitchInput>,
    last: int,
)
    requires
        -1 <= last < inputs.len(),
        forall|i: int| last < i < inputs.len() ==> !(#[trigger] inputs[i] is Foreground),
    ensures
        last == -1 ==> switch.run(inputs).foreground == switch.foreground,
        last >= 0 ==> (inputs[last] matches SwitchInput::Foreground(b) ==> switch.run(
            inputs,
        ).foreground == b),
    decreases inputs.len(),
{
    if inputs.len() > 0 && last < inputs.len() - 1 {
        let rest = inputs.drop_last();
        assert forall|i: int| last < i < rest.len() implies !(#[trigger] rest[i] is Foreground) by {
            assert(rest[i] == inputs[i]);
        }
        assert(!(inputs[inputs.len() - 1] is Foreground));
        law_the_last_word_on_the_foreground_counts(switch, rest, last);
    }
}

/// After any run the mode is the one that was set last, and it stays as it was
/// where none was set.
pub proof fn law_the_last_mode_set_counts(switch: Switch, inputs: Seq<SwitchInput>, last: int)
    requires
        -1 <= last < inputs.len(),
        forall|i: int| last < i < inputs.len() ==> !(#[trigger] inputs[i] is SetMode),
    ensures
        last == -1 ==> switch.run(inputs).mode == switch.mode,
        last >= 0 ==> (inputs[last] matches SwitchInput::SetMode(mode) ==> switch.run(inputs).mode
            == mode),
    decreases inputs.len(),
{
    if inputs.len() > 0 && last < inputs.len() - 1 {
        let rest = inputs.drop_last();
        assert forall|i: int| last < i < rest.len() implies !(#[trigger] rest[i] is SetMode) by {
            assert(rest[i] == inputs[i]);
        }
        assert(!(inputs[inputs.len() - 1] is SetMode));
        law_the_last_mode_set_counts(switch, rest, last);
    }
}

/// The count adds up: a change moves it by just as much, down to zero and no
/// further, in either mode and in the background too. A report of the era that the
/// switch is in counts like any other change, and one of another era not at all.
pub proof fn law_the_count_adds_up(switch: Switch, era: u64, delta: int)
    ensures
        switch.active + delta >= 0 ==> switch.next(SwitchInput::Bump(delta)).active
            == switch.active + delta,
        switch.active + delta < 0 ==> switch.next(SwitchInput::Bump(delta)).active == 0,
        era == switch.era ==> switch.next(SwitchInput::Report(era, delta)) == switch.next(
            SwitchInput::Bump(delta),
        ),
        era != switch.era ==> switch.next(SwitchInput::Report(era, delta)) == switch,
{
}

/// Two changes of the count that do not fall below zero are one: how it came about
/// does not matter.
pub proof fn law_changes_of_the_count_combine(switch: Switch, a: int, b: int)
    requires
        switch.active + a >= 0,
    ensures
        switch.next(SwitchInput::Bump(a)).next(SwitchInput::Bump(b)) == switch.next(
            SwitchInput::Bump(a + b),
        ),
{
}

/// In every state the channel is up exactly for a server, and for a client in the
/// foreground without a session.
pub proof fn law_the_channel_is_up_when_it_should_be(switch: Switch, inputs: Seq<SwitchInput>)
    requires
        switch.active >= 0,
        switch.pushed == (switch.mode == Mode::Server || (switch.foreground && switch.active == 0)),
    ensures
        ({
            let end = switch.run(inputs);
            &&& end.active >= 0
            &&& end.pushed == (end.mode == Mode::Server || (end.foreground && end.active == 0))
            &&& end.wants() == end.pushed
            &&& end.settled()
        }),
    decreases inputs.len(),
{
    if inputs.len() > 0 {
        law_the_channel_is_up_when_it_should_be(switch, inputs.drop_last());
    }
}

/// The provider is told to come up exactly when the answer turns from no to yes, to
/// go down exactly when it turns from yes to no, and nothing otherwise.
pub proof fn law_the_provider_is_told_of_changes(switch: Switch, input: SwitchInput)
    ensures
        ({
            let end = switch.next(input);
            &&& switch.told(input) == Some(Intent::Activate) <==> !switch.pushed && end.pushed
            &&& switch.told(input) == Some(Intent::Deactivate) <==> switch.pushed && !end.pushed
            &&& switch.told(input) is None <==> switch.pushed == end.pushed
        }),
{
}

/// Working the answer out changes nothing but what the provider is taken to know.
pub proof fn law_settling_changes_the_answer_alone(switch: Switch)
    ensures
        ({
            let end = switch.settle();
            &&& end.mode == switch.mode
            &&& end.foreground == switch.foreground
            &&& end.active == switch.active
            &&& end.era == switch.era
            &&& end.pushed == (switch.mode == Mode::Server || (switch.foreground && switch.active
                <= 0))
            &&& push_on_change(switch.pushed, switch.wants()) == Some(Intent::Activate)
                <==> !switch.pushed && end.pushed
            &&& push_on_change(switch.pushed, switch.wants()) == Some(Intent::Deactivate)
                <==> switch.pushed && !end.pushed
        }),
{
}

/// A new driver is a client's, without sessions, and has told the provider where
/// the application is.
pub proof fn law_a_new_driver_starts_from_the_foreground(foreground: bool)
    ensures
        ({
            let start = Switch::initial(foreground);
            &&& start.mode == Mode::Client
            &&& start.foreground == foreground
            &&& start.active == 0
            &&& start.pushed == foreground
            &&& history(foreground, Seq::empty()).len() == 1
            &&& (history(foreground, Seq::empty())[0] == Intent::Activate) == foreground
        }),
{
}

/// A run is its inputs one after the other: it can be cut anywhere, and what the
/// provider is told is what it is told in both parts.
pub proof fn law_runs_of_the_switch_compose(
    switch: Switch,
    first: Seq<SwitchInput>,
    second: Seq<SwitchInput>,
)
    ensures
        switch.run(first + second) == switch.run(first).run(second),
        switch.pushes(first + second) == switch.pushes(first) + switch.run(first).pushes(second),
        mode_changes(first + second) == mode_changes(first) + mode_changes(second),
    decreases second.len(),
{
    if second.len() == 0 {
        assert(first + second =~= first);
        assert(switch.pushes(first) + Seq::<Intent>::empty() =~= switch.pushes(first));
    } else {
        assert((first + second).drop_last() =~= first + second.drop_last());
        assert((first + second).last() == second.last());
        law_runs_of_the_switch_compose(switch, first, second.drop_last());
        assert(switch.pushes(first + second) =~= switch.pushes(first) + switch.run(first).pushes(
            second,
        ));
    }
}

} // verus!
