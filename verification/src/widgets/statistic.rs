//! `Statistic`: a KPI block — a title over a large pre-formatted value,
//! with optional prefix, suffix and trend indicator.

use vstd::prelude::*;

use crate::access::{AccessNode, Role};
use crate::text::{opt_text, owned, push_str};

verus! {

/// Trend direction of a statistic.
#[derive(Clone, Copy, Debug, PartialEq, Eq, Hash, Structural)]
pub enum Trend {
    /// No directional signal.
    Neutral,
    /// Upward, marked with `▲`.
    Up,
    /// Downward, marked with `▼`.
    Down,
}

impl Default for Trend {
    fn default() -> (r: Trend)
        ensures
            r == Trend::Neutral,
    {
        Trend::Neutral
    }
}

/// The word spoken for a trend.
pub open spec fn trend_word(t: Trend) -> Seq<char> {
    match t {
        Trend::Up => "up"@,
        Trend::Down => "down"@,
        Trend::Neutral => "flat"@,
    }
}

/// The state of a statistic.
pub struct StatisticView {
    pub title: Seq<char>,
    pub value: Seq<char>,
    pub prefix: Option<Seq<char>>,
    pub suffix: Option<Seq<char>>,
    pub trend: Option<(Trend, Seq<char>)>,
    pub enabled: bool,
}

/// A KPI block.
#[derive(Debug)]
pub struct Statistic {
    title: String,
    value: String,
    prefix: Option<String>,
    suffix: Option<String>,
    trend: Option<(Trend, String)>,
    /// Whether the widget is enabled.
    pub enabled: bool,
}

impl View for Statistic {
    type V = StatisticView;

    closed spec fn view(&self) -> StatisticView {
        StatisticView {
            title: self.title@,
            value: self.value@,
            prefix: opt_text(self.prefix),
            suffix: opt_text(self.suffix),
            trend: match self.trend {
                Some((d, t)) => Some((d, t@)),
                None => None,
            },
            enabled: self.enabled,
        }
    }
}

/// The spoken summary: "title: value", then "(up +2%)" when a trend is
/// set.
pub open spec fn summary(v: StatisticView) -> Seq<char> {
    match v.trend {
        Some((d, t)) => v.title + ": "@ + v.value + " ("@ + trend_word(d) + " "@ + t + ")"@,
        None => v.title + ": "@ + v.value,
    }
}

impl Statistic {
    /// A statistic with `title` and a pre-formatted `value`.
    pub fn new(title: &str, value: &str) -> (s: Statistic)
        ensures
            s@ == (StatisticView {
                title: title@,
                value: value@,
                prefix: None,
                suffix: None,
                trend: None,
                enabled: true,
            }),
    {
        Statistic {
            title: owned(title),
            value: owned(value),
            prefix: None,
            suffix: None,
            trend: None,
            enabled: true,
        }
    }

    /// Sets a prefix drawn before the value.
    pub fn prefix(self, prefix: &str) -> (s: Statistic)
        ensures
            s@ == (StatisticView { prefix: Some(prefix@), ..self@ }),
    {
        let mut s = self;
        s.prefix = Some(owned(prefix));
        s
    }

    /// Sets a suffix drawn after the value.
    pub fn suffix(self, suffix: &str) -> (s: Statistic)
        ensures
            s@ == (StatisticView { suffix: Some(suffix@), ..self@ }),
    {
        let mut s = self;
        s.suffix = Some(owned(suffix));
        s
    }

    /// Sets the trend indicator.
    pub fn trend(self, dir: Trend, text: &str) -> (s: Statistic)
        ensures
            s@ == (StatisticView { trend: Some((dir, text@)), ..self@ }),
    {
        let mut s = self;
        s.trend = Some((dir, owned(text)));
        s
    }

    /// Sets whether the widget is enabled.
    pub fn enabled(self, enabled: bool) -> (s: Statistic)
        ensures
            s@ == (StatisticView { enabled, ..self@ }),
    {
        let mut s = self;
        s.enabled = enabled;
        s
    }

    /// The metric's title.
    pub fn title(&self) -> (r: &str)
        ensures
            r@ == self@.title,
    {
        self.title.as_str()
    }

    /// The pre-formatted value.
    pub fn value_text(&self) -> (r: &str)
        ensures
            r@ == self@.value,
    {
        self.value.as_str()
    }

    /// The prefix, if any.
    pub fn get_prefix(&self) -> (r: Option<&str>)
        ensures
            match r {
                Some(p) => self@.prefix == Some(p@),
                None => self@.prefix is None,
            },
    {
        match &self.prefix {
            Some(p) => Some(p.as_str()),
            None => None,
        }
    }

    /// The suffix, if any.
    pub fn get_suffix(&self) -> (r: Option<&str>)
        ensures
            match r {
                Some(p) => self@.suffix == Some(p@),
                None => self@.suffix is None,
            },
    {
        match &self.suffix {
            Some(p) => Some(p.as_str()),
            None => None,
        }
    }

    /// The trend direction and text, if any.
    pub fn get_trend(&self) -> (r: Option<(Trend, &str)>)
        ensures
            match r {
                Some((d, t)) => self@.trend == Some((d, t@)),
                None => self@.trend is None,
            },
    {
        match &self.trend {
            Some((d, t)) => Some((*d, t.as_str())),
            None => None,
        }
    }

    /// Updates the value in place.
    pub fn set_value(&mut self, value: &str)
        ensures
            final(self)@ == (StatisticView { value: value@, ..old(self)@ }),
    {
        self.value = owned(value);
    }

    /// The accessibility node: a group carrying the spoken summary.
    pub fn accessibility(&self) -> (n: AccessNode)
        ensures
            n == (AccessNode {
                label: n.label,
                disabled: !self@.enabled,
                ..AccessNode::blank(Role::Group)
            }),
            n.label is Some,
            n.label.unwrap()@ == summary(self@),
    {
        let mut text = self.title.clone();
        push_str(&mut text, ": ");
        push_str(&mut text, self.value.as_str());
        match &self.trend {
            Some((d, t)) => {
                let word = match d {
                    Trend::Up => "up",
                    Trend::Down => "down",
                    Trend::Neutral => "flat",
                };
                push_str(&mut text, " (");
                push_str(&mut text, word);
                push_str(&mut text, " ");
                push_str(&mut text, t.as_str());
                push_str(&mut text, ")");
            },
            None => {},
        }
        let mut node = AccessNode::new(Role::Group);
        node.label = Some(text);
        node.disabled = !self.enabled;
        node
    }
}

impl Default for Statistic {
    fn default() -> (s: Statistic)
        ensures
            s@ == (StatisticView {
                title: ""@,
                value: "0"@,
                prefix: None,
                suffix: None,
                trend: None,
                enabled: true,
            }),
    {
        Statistic::new("", "0")
    }
}

} // verus!
