//! The navigation, login and dispatch sequencer as a state machine.
//!
//! The fragile page knowledge — the entry URL, the CSS selectors, the
//! visible-text labels — and every decision of the run live here. The machine
//! hands out one `PageAction` at a time; whoever drives the browser performs
//! it and feeds the outcome back in as an `Event`. Failure at any step (link
//! not found, fewer than two inputs present, an event that does not match the
//! awaited operation) is fatal: the machine returns an error and the run stops.
//! There is no retry and no intermediate persisted state.

use vstd::prelude::*;

use crate::actions::{label, label_spec, Command};
use crate::config::Settings;
use crate::finder::{find_first, get_button};

verus! {

/// What the sequencer is waiting for: the outcome of the one page operation it
/// handed out last, in a fixed three-phase order (reach the login form, fill
/// and submit it, click the requested action's button).
#[derive(Clone, Copy, PartialEq, Eq, Structural, Debug)]
pub enum Stage {
    /// No operation handed out yet.
    Init,
    /// Opening the entry URL.
    AwaitEntryNav,
    /// Collecting the login anchor elements.
    AwaitLoginAnchors,
    /// Clicking the login link.
    AwaitLoginClick,
    /// Waiting for the credential input fields.
    AwaitInputs,
    /// Clicking the first input field.
    AwaitEmailFocus,
    /// Typing the email.
    AwaitEmailTyped,
    /// Clicking the second input field.
    AwaitPasswordFocus,
    /// Typing the password.
    AwaitPasswordTyped,
    /// Pressing Enter to submit.
    AwaitSubmit,
    /// Waiting for the navigation buttons.
    AwaitButtons,
    /// Clicking the requested action's button.
    AwaitButtonClick,
    /// Waiting for the resulting page navigation.
    AwaitFinalNav,
    /// The requested action has been performed.
    Finished,
}

/// One page operation for the browser driver to perform.
#[derive(Debug, PartialEq, Eq)]
pub enum PageAction {
    /// Open the URL and wait until the navigation completes.
    Navigate(&'static str),
    /// Collect the elements under the CSS selector, without waiting.
    FindElements(&'static str),
    /// Wait for elements under the CSS selector to exist, then collect them.
    WaitForElements(&'static str),
    /// Click the element at this index of the last collected list.
    Click(usize),
    /// Send the text as keystrokes to the focused element.
    TypeText(String),
    /// Press the named key.
    PressKey(&'static str),
    /// Wait until the pending page navigation completes.
    WaitNavigated,
    /// Nothing is left to do: the run succeeded.
    Finish,
}

/// The outcome of a performed page operation. An element list carries each
/// element's extracted inner text, `None` where extraction failed.
pub enum Event {
    /// The operation completed and returned no elements.
    Done,
    /// The operation returned these elements, by their inner text.
    Elements(Vec<Option<String>>),
}

/// The fatal errors the sequencer itself decides; errors of the browser and
/// the network stay with the driver and are equally fatal there.
#[derive(Clone, Copy, PartialEq, Eq, Structural, Debug)]
pub enum RunError {
    /// No anchor under the login selector carries the login label.
    LoginLinkNotFound,
    /// Fewer than two input fields were present on the login form.
    MissingLoginInputs,
    /// No button under the navigation container carries the action's label.
    ActionButtonNotFound,
    /// The event does not match the operation the sequencer awaited.
    UnexpectedEvent,
}

/// The description each error is printed with at the process boundary.
pub open spec fn message_spec(e: RunError) -> Seq<char> {
    match e {
        RunError::LoginLinkNotFound => "failed to find the login link"@,
        RunError::MissingLoginInputs => "fewer than two login input fields were present"@,
        RunError::ActionButtonNotFound => "failed to find the requested action's button"@,
        RunError::UnexpectedEvent => "the page event did not match the awaited operation"@,
    }
}

impl RunError {
    /// A human-readable description of the error.
    pub fn message(&self) -> (r: &'static str)
        ensures
            r@ == message_spec(*self),
    {
        match self {
            RunError::LoginLinkNotFound => "failed to find the login link",
            RunError::MissingLoginInputs => "fewer than two login input fields were present",
            RunError::ActionButtonNotFound => "failed to find the requested action's button",
            RunError::UnexpectedEvent => "the page event did not match the awaited operation",
        }
    }
}

/// One run of the program: the credentials, the requested action, and the
/// stage the run has reached. Terminal on first success or first failure.
pub struct Session {
    pub settings: Settings,
    pub command: Command,
    pub stage: Stage,
}

/// The transition relation of one step: given the session before and after,
/// the event that arrived and the result handed back, says exactly which
/// operation (or which error) the stage and the event demand.
pub open spec fn step_post(
    pre: Session,
    post: Session,
    event: Event,
    r: Result<PageAction, RunError>,
) -> bool {
    match (pre.stage, event) {
        (Stage::AwaitEntryNav, Event::Done) => post.stage is AwaitLoginAnchors && (
        r matches Ok(a) && a matches PageAction::FindElements(s)
            && s@ == "#gatsby-focus-wrapper > header > div.g-header_inner > div > div.g-headerBtn > a"@
        ),
        (Stage::AwaitLoginAnchors, Event::Elements(texts)) => (match find_first(
            texts@,
            "ログインする"@,
        ) {
            Some(i) => post.stage is AwaitLoginClick && (
            r matches Ok(a) && a matches PageAction::Click(j) && j as int == i
            ),
            None => post.stage == pre.stage && (
            r matches Err(e) && e is LoginLinkNotFound
            ),
        }),
        (Stage::AwaitLoginClick, Event::Done) => post.stage is AwaitInputs && (
        r matches Ok(a) && a matches PageAction::WaitForElements(s) && s@ == "input"@
        ),
        (Stage::AwaitInputs, Event::Elements(texts)) => (if texts@.len() >= 2 {
            post.stage is AwaitEmailFocus && (
            r matches Ok(a) && a matches PageAction::Click(j) && j == 0usize
            )
        } else {
            post.stage == pre.stage && (r matches Err(e) && e is MissingLoginInputs)
        }),
        (Stage::AwaitEmailFocus, Event::Done) => post.stage is AwaitEmailTyped && (
        r matches Ok(a) && a matches PageAction::TypeText(t) && t@ == pre.settings.email@
        ),
        (Stage::AwaitEmailTyped, Event::Done) => post.stage is AwaitPasswordFocus && (
        r matches Ok(a) && a matches PageAction::Click(j) && j == 1usize
        ),
        (Stage::AwaitPasswordFocus, Event::Done) => post.stage is AwaitPasswordTyped && (
        r matches Ok(a) && a matches PageAction::TypeText(t) && t@ == pre.settings.password@
        ),
        (Stage::AwaitPasswordTyped, Event::Done) => post.stage is AwaitSubmit && (
        r matches Ok(a) && a matches PageAction::PressKey(k) && k@ == "Enter"@
        ),
        (Stage::AwaitSubmit, Event::Done) => post.stage is AwaitButtons && (
        r matches Ok(a) && a matches PageAction::WaitForElements(s)
            && s@ == "#global-navigation-body-block button"@
        ),
        (Stage::AwaitButtons, Event::Elements(texts)) => (match find_first(
            texts@,
            label_spec(pre.command),
        ) {
            Some(i) => post.stage is AwaitButtonClick && (
            r matches Ok(a) && a matches PageAction::Click(j) && j as int == i
            ),
            None => post.stage == pre.stage && (
            r matches Err(e) && e is ActionButtonNotFound
            ),
        }),
        (Stage::AwaitButtonClick, Event::Done) => post.stage is AwaitFinalNav && (
        r matches Ok(a) && a is WaitNavigated
        ),
        (Stage::AwaitFinalNav, Event::Done) => post.stage is Finished && (
        r matches Ok(a) && a is Finish
        ),
        _ => post.stage == pre.stage && (r matches Err(e) && e is UnexpectedEvent),
    }
}

impl Session {
    /// Begins a run over the given credentials for the given action.
    pub fn new(settings: Settings, command: Command) -> (s: Session)
        ensures
            s.settings == settings,
            s.command == command,
            s.stage is Init,
    {
        Session { settings, command, stage: Stage::Init }
    }

    /// Hands out the opening operation: navigate to the fixed entry URL.
    /// Every later operation comes out of `step`.
    pub fn start(&mut self) -> (a: PageAction)
        requires
            old(self).stage is Init,
        ensures
            final(self).settings == old(self).settings,
            final(self).command == old(self).command,
            final(self).stage is AwaitEntryNav,
            a matches PageAction::Navigate(u) && u@ == "https://www.freee.co.jp/hr/"@,
    {
        self.stage = Stage::AwaitEntryNav;
        PageAction::Navigate("https://www.freee.co.jp/hr/")
    }

    /// Takes the outcome of the last operation and hands out the next one, or
    /// the fatal error the outcome forces. The credentials and the requested
    /// action never change; on an error the stage stands still.
    pub fn step(&mut self, event: Event) -> (r: Result<PageAction, RunError>)
        ensures
            final(self).settings == old(self).settings,
            final(self).command == old(self).command,
            step_post(*old(self), *final(self), event, r),
    {
        match (self.stage, &event) {
            (Stage::AwaitEntryNav, Event::Done) => {
                self.stage = Stage::AwaitLoginAnchors;
                Ok(PageAction::FindElements(
                    "#gatsby-focus-wrapper > header > div.g-header_inner > div > div.g-headerBtn > a",
                ))
            },
            (Stage::AwaitLoginAnchors, Event::Elements(texts)) => {
                match get_button(texts, "ログインする") {
                    Some(i) => {
                        self.stage = Stage::AwaitLoginClick;
                        Ok(PageAction::Click(i))
                    },
                    None => Err(RunError::LoginLinkNotFound),
                }
            },
            (Stage::AwaitLoginClick, Event::Done) => {
                self.stage = Stage::AwaitInputs;
                Ok(PageAction::WaitForElements("input"))
            },
            (Stage::AwaitInputs, Event::Elements(texts)) => {
                if texts.len() >= 2 {
                    self.stage = Stage::AwaitEmailFocus;
                    Ok(PageAction::Click(0))
                } else {
                    Err(RunError::MissingLoginInputs)
                }
            },
            (Stage::AwaitEmailFocus, Event::Done) => {
                self.stage = Stage::AwaitEmailTyped;
                Ok(PageAction::TypeText(self.settings.email.clone()))
            },
            (Stage::AwaitEmailTyped, Event::Done) => {
                self.stage = Stage::AwaitPasswordFocus;
                Ok(PageAction::Click(1))
            },
            (Stage::AwaitPasswordFocus, Event::Done) => {
                self.stage = Stage::AwaitPasswordTyped;
                Ok(PageAction::TypeText(self.settings.password.clone()))
            },
            (Stage::AwaitPasswordTyped, Event::Done) => {
                self.stage = Stage::AwaitSubmit;
                Ok(PageAction::PressKey("Enter"))
            },
            (Stage::AwaitSubmit, Event::Done) => {
                self.stage = Stage::AwaitButtons;
                Ok(PageAction::WaitForElements("#global-navigation-body-block button"))
            },
            (Stage::AwaitButtons, Event::Elements(texts)) => {
                match get_button(texts, label(self.command)) {
                    Some(i) => {
                        self.stage = Stage::AwaitButtonClick;
                        Ok(PageAction::Click(i))
                    },
                    None => Err(RunError::ActionButtonNotFound),
                }
            },
            (Stage::AwaitButtonClick, Event::Done) => {
                self.stage = Stage::AwaitFinalNav;
                Ok(PageAction::WaitNavigated)
            },
            (Stage::AwaitFinalNav, Event::Done) => {
                self.stage = Stage::Finished;
                Ok(PageAction::Finish)
            },
            _ => Err(RunError::UnexpectedEvent),
        }
    }
}

} // verus!
