use vstd::prelude::*;
use vstd::string::StringExecFns;

verus! {

/// Whether a styled status button shows a reachable or an unreachable URL.
#[derive(Clone, Copy, Debug, PartialEq, Eq, Structural)]
pub struct ButtonStyle {
    pub is_accessible: bool,
}

impl ButtonStyle {
    /// The button's background as red, green and blue channels: full green
    /// for an accessible URL, full red for an inaccessible one.
    pub fn background(&self) -> (r: (u8, u8, u8))
        ensures
            r == (if self.is_accessible {
                (0u8, 255u8, 0u8)
            } else {
                (255u8, 0u8, 0u8)
            }),
    {
        if self.is_accessible {
            (0, 255, 0)
        } else {
            (255, 0, 0)
        }
    }
}

/// The status of one URL entry, as a mathematical value.
pub enum Status {
    NotChecked,
    Checking,
    Accessible,
    Inaccessible(Seq<char>),
}

/// The status of one URL entry.
#[derive(Debug)]
pub enum URLStatus {
    NotChecked,
    Checking,
    Accessible,
    Inaccessible(String),
}

impl URLStatus {
    pub open spec fn model(&self) -> Status {
        match self {
            URLStatus::NotChecked => Status::NotChecked,
            URLStatus::Checking => Status::Checking,
            URLStatus::Accessible => Status::Accessible,
            URLStatus::Inaccessible(reason) => Status::Inaccessible(reason@),
        }
    }

    /// A copy that has the same model.
    pub fn duplicate(&self) -> (r: URLStatus)
        ensures
            r.model() == self.model(),
    {
        match self {
            URLStatus::NotChecked => URLStatus::NotChecked,
            URLStatus::Checking => URLStatus::Checking,
            URLStatus::Accessible => URLStatus::Accessible,
            URLStatus::Inaccessible(reason) => URLStatus::Inaccessible(reason.clone()),
        }
    }

    /// Whether a probe has come back for this entry.
    pub fn is_settled(&self) -> (r: bool)
        ensures
            r == status_settled(self.model()),
    {
        match self {
            URLStatus::Accessible => true,
            URLStatus::Inaccessible(_) => true,
            _ => false,
        }
    }

    /// The text shown on the entry's button.
    pub fn label(&self) -> (r: String)
        ensures
            r@ == status_label(self.model()),
    {
        match self {
            URLStatus::NotChecked => String::from_str("Check"),
            URLStatus::Checking => String::from_str("Checking..."),
            URLStatus::Accessible => String::from_str("Accessible"),
            URLStatus::Inaccessible(_) => String::from_str("Inaccessible"),
        }
    }

    /// The colouring of the entry's button: green once accessible, red once
    /// inaccessible, none before a probe has come back.
    pub fn button_style(&self) -> (r: Option<ButtonStyle>)
        ensures
            r == status_style(self.model()),
    {
        match self {
            URLStatus::Accessible => Some(ButtonStyle { is_accessible: true }),
            URLStatus::Inaccessible(_) => Some(ButtonStyle { is_accessible: false }),
            _ => None,
        }
    }
}

/// A status is settled once the probe's outcome has been recorded.
pub open spec fn status_settled(s: Status) -> bool {
    s is Accessible || s is Inaccessible
}

/// The text shown on the button of an entry with status `s`.
pub open spec fn status_label(s: Status) -> Seq<char> {
    match s {
        Status::NotChecked => "Check"@,
        Status::Checking => "Checking..."@,
        Status::Accessible => "Accessible"@,
        Status::Inaccessible(_) => "Inaccessible"@,
    }
}

/// The colouring of the button of an entry with status `s`.
pub open spec fn status_style(s: Status) -> Option<ButtonStyle> {
    match s {
        Status::Accessible => Some(ButtonStyle { is_accessible: true }),
        Status::Inaccessible(_) => Some(ButtonStyle { is_accessible: false }),
        _ => None,
    }
}

} // verus!
