//! The acquisition controls: start / pause / stop, and the sample-rate and
//! display-window inputs that may only change while acquisition is idle.
use vstd::prelude::*;

verus! {

/// The state of acquisition.
#[derive(Debug, Clone, Copy, PartialEq, Eq, Structural)]
pub enum AcquisitionState {
    /// Not started.
    Idle,
    /// Acquiring.
    Running,
    /// Paused.
    Paused,
}

/// A command given by the user.
#[derive(Debug, Clone, Copy, PartialEq, Eq, Structural)]
pub enum AcquisitionCommand {
    Start,
    Pause,
    Stop,
}

/// The lowest sample rate, in Hz.
pub const RATE_MIN: u32 = 1;
/// The highest sample rate, in Hz (100 kHz).
pub const RATE_MAX: u32 = 100_000;
/// The smallest display window, in samples.
pub const WINDOW_MIN: usize = 1;
/// The largest display window, in samples.
pub const WINDOW_MAX: usize = 10_000;
/// The display window a new panel starts with, in samples.
pub const WINDOW_DEFAULT: usize = 2000;

/// The control panel: acquisition state, sample rate, sample count, the
/// optional number of samples to take, and the display window (in samples;
/// older data beyond it is dropped from the display).
pub struct ControlPanel {
    pub state: AcquisitionState,
    pub sample_rate: u32,
    pub total_samples: u64,
    pub target_count: Option<u64>,
    pub window_size: usize,
}

/// A sample rate brought into `RATE_MIN..=RATE_MAX`.
pub open spec fn clamp_rate(rate: u32) -> u32 {
    if rate < RATE_MIN {
        RATE_MIN
    } else if rate > RATE_MAX {
        RATE_MAX
    } else {
        rate
    }
}

/// A window size brought into `WINDOW_MIN..=WINDOW_MAX`.
pub open spec fn clamp_window(window: usize) -> usize {
    if window < WINDOW_MIN {
        WINDOW_MIN
    } else if window > WINDOW_MAX {
        WINDOW_MAX
    } else {
        window
    }
}

/// The command of the first button in a state: Start while idle or paused,
/// Pause while running.
pub open spec fn spec_primary_command(state: AcquisitionState) -> AcquisitionCommand {
    match state {
        AcquisitionState::Running => AcquisitionCommand::Pause,
        _ => AcquisitionCommand::Start,
    }
}

/// Whether a Stop button is offered in a state: whenever acquisition is not idle.
pub open spec fn spec_stop_offered(state: AcquisitionState) -> bool {
    state != AcquisitionState::Idle
}

/// The command that a frame of the panel yields, from the buttons clicked in
/// it: Stop when offered and clicked (it wins over the first button), else the
/// first button's command when clicked, else none.
pub open spec fn spec_command(state: AcquisitionState, primary_clicked: bool, stop_clicked: bool) -> Option<
    AcquisitionCommand,
> {
    if spec_stop_offered(state) && stop_clicked {
        Some(AcquisitionCommand::Stop)
    } else if primary_clicked {
        Some(spec_primary_command(state))
    } else {
        None
    }
}

impl ControlPanel {
    /// A new idle panel with no samples taken, the sample rate brought into
    /// range and the default display window.
    pub fn new(sample_rate: u32, target_count: Option<u64>) -> (p: ControlPanel)
        ensures
            p.state == AcquisitionState::Idle,
            p.sample_rate == clamp_rate(sample_rate),
            p.total_samples == 0,
            p.target_count == target_count,
            p.window_size == WINDOW_DEFAULT,
    {
        let sample_rate = if sample_rate < RATE_MIN {
            RATE_MIN
        } else if sample_rate > RATE_MAX {
            RATE_MAX
        } else {
            sample_rate
        };
        ControlPanel {
            state: AcquisitionState::Idle,
            sample_rate,
            total_samples: 0,
            target_count,
            window_size: WINDOW_DEFAULT,
        }
    }

    /// The command of the first button offered in the current state.
    pub fn primary_command(&self) -> (c: AcquisitionCommand)
        ensures
            c == spec_primary_command(self.state),
    {
        match self.state {
            AcquisitionState::Running => AcquisitionCommand::Pause,
            _ => AcquisitionCommand::Start,
        }
    }

    /// Whether a Stop button is offered in the current state.
    pub fn stop_offered(&self) -> (b: bool)
        ensures
            b == spec_stop_offered(self.state),
    {
        self.state != AcquisitionState::Idle
    }

    /// Whether the sample rate and window inputs accept edits: only while idle.
    pub fn params_editable(&self) -> (b: bool)
        ensures
            b == (self.state == AcquisitionState::Idle),
    {
        self.state == AcquisitionState::Idle
    }

    /// The command yielded by a frame in which the first button and the Stop
    /// button were clicked or not; a click on a button that is not offered
    /// counts for nothing.
    pub fn command_for(&self, primary_clicked: bool, stop_clicked: bool) -> (c: Option<
        AcquisitionCommand,
    >)
        ensures
            c == spec_command(self.state, primary_clicked, stop_clicked),
    {
        let mut cmd = None;
        if primary_clicked {
            cmd = Some(self.primary_command());
        }
        if self.stop_offered() && stop_clicked {
            cmd = Some(AcquisitionCommand::Stop);
        }
        cmd
    }

    /// Takes the values entered in the rate and window inputs: they replace
    /// the current ones only while idle, and both values are brought into
    /// range in any case.
    pub fn apply_params(&mut self, rate: u32, window: usize)
        ensures
            final(self).sample_rate == clamp_rate(
                if old(self).state == AcquisitionState::Idle {
                    rate
                } else {
                    old(self).sample_rate
                },
            ),
            final(self).window_size == clamp_window(
                if old(self).state == AcquisitionState::Idle {
                    window
                } else {
                    old(self).window_size
                },
            ),
            final(self).state == old(self).state,
            final(self).total_samples == old(self).total_samples,
            final(self).target_count == old(self).target_count,
    {
        let (r, w) = if self.params_editable() {
            (rate, window)
        } else {
            (self.sample_rate, self.window_size)
        };
        self.sample_rate = if r < RATE_MIN {
            RATE_MIN
        } else if r > RATE_MAX {
            RATE_MAX
        } else {
            r
        };
        self.window_size = if w < WINDOW_MIN {
            WINDOW_MIN
        } else if w > WINDOW_MAX {
            WINDOW_MAX
        } else {
            w
        };
    }

    /// One frame of the panel: the command from the buttons clicked, decided
    /// on the state the frame began in, and the inputs taken as
    /// [`Self::apply_params`] says.
    pub fn frame(&mut self, primary_clicked: bool, stop_clicked: bool, rate: u32, window: usize) -> (c:
        Option<AcquisitionCommand>)
        ensures
            c == spec_command(old(self).state, primary_clicked, stop_clicked),
            final(self).sample_rate == clamp_rate(
                if old(self).state == AcquisitionState::Idle {
                    rate
                } else {
                    old(self).sample_rate
                },
            ),
            final(self).window_size == clamp_window(
                if old(self).state == AcquisitionState::Idle {
                    window
                } else {
                    old(self).window_size
                },
            ),
            final(self).state == old(self).state,
            final(self).total_samples == old(self).total_samples,
            final(self).target_count == old(self).target_count,
    {
        let cmd = self.command_for(primary_clicked, stop_clicked);
        self.apply_params(rate, window);
        cmd
    }

    /// Acquisition has started.
    pub fn set_running(&mut self)
        ensures
            *final(self) == (ControlPanel { state: AcquisitionState::Running, ..*old(self) }),
    {
        self.state = AcquisitionState::Running;
    }

    /// Acquisition is paused.
    pub fn set_paused(&mut self)
        ensures
            *final(self) == (ControlPanel { state: AcquisitionState::Paused, ..*old(self) }),
    {
        self.state = AcquisitionState::Paused;
    }

    /// Acquisition has stopped.
    pub fn set_stopped(&mut self)
        ensures
            *final(self) == (ControlPanel { state: AcquisitionState::Idle, ..*old(self) }),
    {
        self.state = AcquisitionState::Idle;
    }

    /// Records the number of samples taken so far.
    pub fn update_count(&mut self, total: u64)
        ensures
            *final(self) == (ControlPanel { total_samples: total, ..*old(self) }),
    {
        self.total_samples = total;
    }
}

/// A command is only ever yielded for a button that the state offers: Stop
/// never while idle, Start never while running, Pause only while running.
pub proof fn law_command_offered(state: AcquisitionState, primary_clicked: bool, stop_clicked: bool)
    ensures
        spec_command(state, primary_clicked, stop_clicked) == Some(AcquisitionCommand::Stop) ==> state
            != AcquisitionState::Idle,
        spec_command(state, primary_clicked, stop_clicked) == Some(AcquisitionCommand::Start) ==> state
            != AcquisitionState::Running,
        spec_command(state, primary_clicked, stop_clicked) == Some(AcquisitionCommand::Pause) ==> state
            == AcquisitionState::Running,
        !primary_clicked && !stop_clicked ==> spec_command(state, primary_clicked, stop_clicked) is None,
{
}

/// The sample rate and window stay in range: whatever is entered, they are in
/// range after a frame; and outside the idle state a rate and window already
/// in range do not change.
pub proof fn law_params_in_range(state: AcquisitionState, old_rate: u32, old_window: usize, rate: u32, window: usize)
    ensures
        RATE_MIN <= clamp_rate(
            if state == AcquisitionState::Idle {
                rate
            } else {
                old_rate
            },
        ) <= RATE_MAX,
        WINDOW_MIN <= clamp_window(
            if state == AcquisitionState::Idle {
                window
            } else {
                old_window
            },
        ) <= WINDOW_MAX,
        state != AcquisitionState::Idle && RATE_MIN <= old_rate <= RATE_MAX ==> clamp_rate(old_rate)
            == old_rate,
        state != AcquisitionState::Idle && WINDOW_MIN <= old_window <= WINDOW_MAX ==> clamp_window(
            old_window,
        ) == old_window,
{
}

/// Which command a frame yields: Stop when acquisition is running or paused
/// and Stop was clicked, whatever else was; otherwise, when the first button
/// was clicked, Pause while running and Start while idle or paused; otherwise
/// none.
pub proof fn law_frame_command(state: AcquisitionState, primary_clicked: bool, stop_clicked: bool)
    ensures
        state != AcquisitionState::Idle && stop_clicked ==> spec_command(state, primary_clicked, stop_clicked)
            == Some(AcquisitionCommand::Stop),
        !(state != AcquisitionState::Idle && stop_clicked) && primary_clicked && state
            == AcquisitionState::Running ==> spec_command(state, primary_clicked, stop_clicked) == Some(
            AcquisitionCommand::Pause,
        ),
        !(state != AcquisitionState::Idle && stop_clicked) && primary_clicked && state
            != AcquisitionState::Running ==> spec_command(state, primary_clicked, stop_clicked) == Some(
            AcquisitionCommand::Start,
        ),
        !(state != AcquisitionState::Idle && stop_clicked) && !primary_clicked ==> spec_command(
            state,
            primary_clicked,
            stop_clicked,
        ) is None,
{
}

/// How entered values are taken: a sample rate below 1 Hz becomes 1 Hz, one
/// above 100 kHz becomes 100 kHz, any other is kept; a window below 1 sample
/// becomes 1, one above 10 000 samples becomes 10 000, any other is kept.
pub proof fn law_inputs_clamped(rate: u32, window: usize)
    ensures
        rate < 1 ==> clamp_rate(rate) == 1,
        rate > 100_000 ==> clamp_rate(rate) == 100_000,
        1 <= rate <= 100_000 ==> clamp_rate(rate) == rate,
        window < 1 ==> clamp_window(window) == 1,
        window > 10_000 ==> clamp_window(window) == 10_000,
        1 <= window <= 10_000 ==> clamp_window(window) == window,
{
}

} // verus!
