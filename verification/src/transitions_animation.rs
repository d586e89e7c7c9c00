//! Utilities for transitions and animations.
//!
//! Each utility is an enum whose variants stand for the classes of that
//! utility. The class name of a variant is formed by the rule of
//! [`crate::display`], with the utility's prefix.

use vstd::prelude::*;
use crate::display::{display_variant, kebab_case, without_leading_underscores, DisplayOpts};

verus! {

/// Which properties of an element transition.
#[derive(Debug, Clone, Copy, PartialEq, Eq, Structural)]
pub enum TransitionProperty {
    /// No property: the class `transition-none`.
    Nothing,
    /// Every property.
    All,
    /// The common set: colours, opacity, shadow, transform, filters.
    Transition,
    /// The colour properties.
    Colors,
    /// Opacity.
    Opacity,
    /// The box shadow.
    Shadow,
    /// The transform.
    Transform,
}

impl TransitionProperty {
    /// The prefix of the classes of this utility.
    pub open spec fn spec_prefix() -> Seq<char> {
        "transition"@
    }

    /// The name that a variant's class is formed from.
    pub open spec fn spec_variant_name(self) -> Seq<char> {
        match self {
            TransitionProperty::Nothing => "None"@,
            TransitionProperty::All => "All"@,
            TransitionProperty::Transition => "Transition"@,
            TransitionProperty::Colors => "Colors"@,
            TransitionProperty::Opacity => "Opacity"@,
            TransitionProperty::Shadow => "Shadow"@,
            TransitionProperty::Transform => "Transform"@,
        }
    }

    /// The name that the variant's class is formed from.
    pub fn variant_name(&self) -> (name: &'static str)
        ensures
            name@ == self.spec_variant_name(),
    {
        match self {
            TransitionProperty::Nothing => "None",
            TransitionProperty::All => "All",
            TransitionProperty::Transition => "Transition",
            TransitionProperty::Colors => "Colors",
            TransitionProperty::Opacity => "Opacity",
            TransitionProperty::Shadow => "Shadow",
            TransitionProperty::Transform => "Transform",
        }
    }

    /// The class name of the variant: the prefix, a hyphen, and the
    /// variant's name in kebab case without leading underscores.
    pub fn to_string(&self) -> (class: String)
        ensures
            class@ == Self::spec_prefix() + seq!['-'] + kebab_case(
                without_leading_underscores(self.spec_variant_name()),
            ),
    {
        let opts = DisplayOpts::with_prefix("transition");
        display_variant(&opts, self.variant_name(), None)
    }
}

/// How long a transition lasts, in milliseconds.
#[derive(Debug, Clone, Copy, PartialEq, Eq, Structural)]
pub enum TransitionDuration {
    /// 0 ms.
    _0,
    /// 75 ms.
    _75,
    /// 100 ms.
    _100,
    /// 150 ms.
    _150,
    /// 200 ms.
    _200,
    /// 300 ms.
    _300,
    /// 500 ms.
    _500,
    /// 700 ms.
    _700,
    /// 1000 ms.
    _1000,
}

impl TransitionDuration {
    /// The prefix of the classes of this utility.
    pub open spec fn spec_prefix() -> Seq<char> {
        "duration"@
    }

    /// The name that a variant's class is formed from.
    pub open spec fn spec_variant_name(self) -> Seq<char> {
        match self {
            TransitionDuration::_0 => "_0"@,
            TransitionDuration::_75 => "_75"@,
            TransitionDuration::_100 => "_100"@,
            TransitionDuration::_150 => "_150"@,
            TransitionDuration::_200 => "_200"@,
            TransitionDuration::_300 => "_300"@,
            TransitionDuration::_500 => "_500"@,
            TransitionDuration::_700 => "_700"@,
            TransitionDuration::_1000 => "_1000"@,
        }
    }

    /// The name that the variant's class is formed from.
    pub fn variant_name(&self) -> (name: &'static str)
        ensures
            name@ == self.spec_variant_name(),
    {
        match self {
            TransitionDuration::_0 => "_0",
            TransitionDuration::_75 => "_75",
            TransitionDuration::_100 => "_100",
            TransitionDuration::_150 => "_150",
            TransitionDuration::_200 => "_200",
            TransitionDuration::_300 => "_300",
            TransitionDuration::_500 => "_500",
            TransitionDuration::_700 => "_700",
            TransitionDuration::_1000 => "_1000",
        }
    }

    /// The class name of the variant: the prefix, a hyphen, and the
    /// variant's name in kebab case without leading underscores.
    pub fn to_string(&self) -> (class: String)
        ensures
            class@ == Self::spec_prefix() + seq!['-'] + kebab_case(
                without_leading_underscores(self.spec_variant_name()),
            ),
    {
        let opts = DisplayOpts::with_prefix("duration");
        display_variant(&opts, self.variant_name(), None)
    }
}

/// The easing of a transition.
#[derive(Debug, Clone, Copy, PartialEq, Eq, Structural)]
pub enum TransitionTimingFunction {
    /// Constant speed.
    Linear,
    /// Slow start.
    In,
    /// Slow end.
    Out,
    /// Slow start and slow end.
    InOut,
}

impl TransitionTimingFunction {
    /// The prefix of the classes of this utility.
    pub open spec fn spec_prefix() -> Seq<char> {
        "ease"@
    }

    /// The name that a variant's class is formed from.
    pub open spec fn spec_variant_name(self) -> Seq<char> {
        match self {
            TransitionTimingFunction::Linear => "Linear"@,
            TransitionTimingFunction::In => "In"@,
            TransitionTimingFunction::Out => "Out"@,
            TransitionTimingFunction::InOut => "InOut"@,
        }
    }

    /// The name that the variant's class is formed from.
    pub fn variant_name(&self) -> (name: &'static str)
        ensures
            name@ == self.spec_variant_name(),
    {
        match self {
            TransitionTimingFunction::Linear => "Linear",
            TransitionTimingFunction::In => "In",
            TransitionTimingFunction::Out => "Out",
            TransitionTimingFunction::InOut => "InOut",
        }
    }

    /// The class name of the variant: the prefix, a hyphen, and the
    /// variant's name in kebab case without leading underscores.
    pub fn to_string(&self) -> (class: String)
        ensures
            class@ == Self::spec_prefix() + seq!['-'] + kebab_case(
                without_leading_underscores(self.spec_variant_name()),
            ),
    {
        let opts = DisplayOpts::with_prefix("ease");
        display_variant(&opts, self.variant_name(), None)
    }
}

/// How long a transition waits before it starts, in milliseconds.
#[derive(Debug, Clone, Copy, PartialEq, Eq, Structural)]
pub enum TransitionDelay {
    /// 0 ms.
    _0,
    /// 75 ms.
    _75,
    /// 100 ms.
    _100,
    /// 150 ms.
    _150,
    /// 200 ms.
    _200,
    /// 300 ms.
    _300,
    /// 500 ms.
    _500,
    /// 700 ms.
    _700,
    /// 1000 ms.
    _1000,
}

impl TransitionDelay {
    /// The prefix of the classes of this utility.
    pub open spec fn spec_prefix() -> Seq<char> {
        "delay"@
    }

    /// The name that a variant's class is formed from.
    pub open spec fn spec_variant_name(self) -> Seq<char> {
        match self {
            TransitionDelay::_0 => "_0"@,
            TransitionDelay::_75 => "_75"@,
            TransitionDelay::_100 => "_100"@,
            TransitionDelay::_150 => "_150"@,
            TransitionDelay::_200 => "_200"@,
            TransitionDelay::_300 => "_300"@,
            TransitionDelay::_500 => "_500"@,
            TransitionDelay::_700 => "_700"@,
            TransitionDelay::_1000 => "_1000"@,
        }
    }

    /// The name that the variant's class is formed from.
    pub fn variant_name(&self) -> (name: &'static str)
        ensures
            name@ == self.spec_variant_name(),
    {
        match self {
            TransitionDelay::_0 => "_0",
            TransitionDelay::_75 => "_75",
            TransitionDelay::_100 => "_100",
            TransitionDelay::_150 => "_150",
            TransitionDelay::_200 => "_200",
            TransitionDelay::_300 => "_300",
            TransitionDelay::_500 => "_500",
            TransitionDelay::_700 => "_700",
            TransitionDelay::_1000 => "_1000",
        }
    }

    /// The class name of the variant: the prefix, a hyphen, and the
    /// variant's name in kebab case without leading underscores.
    pub fn to_string(&self) -> (class: String)
        ensures
            class@ == Self::spec_prefix() + seq!['-'] + kebab_case(
                without_leading_underscores(self.spec_variant_name()),
            ),
    {
        let opts = DisplayOpts::with_prefix("delay");
        display_variant(&opts, self.variant_name(), None)
    }
}

/// The animation of an element.
#[derive(Debug, Clone, Copy, PartialEq, Eq, Structural)]
pub enum Animation {
    /// No animation: the class `animate-none`.
    Nothing,
    /// A full turn, over and over.
    Spin,
    /// Grows and fades, like a radar ping.
    Ping,
    /// Fades in and out.
    Pulse,
    /// Bounces up and down.
    Bounce,
}

impl Animation {
    /// The prefix of the classes of this utility.
    pub open spec fn spec_prefix() -> Seq<char> {
        "animate"@
    }

    /// The name that a variant's class is formed from.
    pub open spec fn spec_variant_name(self) -> Seq<char> {
        match self {
            Animation::Nothing => "None"@,
            Animation::Spin => "Spin"@,
            Animation::Ping => "Ping"@,
            Animation::Pulse => "Pulse"@,
            Animation::Bounce => "Bounce"@,
        }
    }

    /// The name that the variant's class is formed from.
    pub fn variant_name(&self) -> (name: &'static str)
        ensures
            name@ == self.spec_variant_name(),
    {
        match self {
            Animation::Nothing => "None",
            Animation::Spin => "Spin",
            Animation::Ping => "Ping",
            Animation::Pulse => "Pulse",
            Animation::Bounce => "Bounce",
        }
    }

    /// The class name of the variant: the prefix, a hyphen, and the
    /// variant's name in kebab case without leading underscores.
    pub fn to_string(&self) -> (class: String)
        ensures
            class@ == Self::spec_prefix() + seq!['-'] + kebab_case(
                without_leading_underscores(self.spec_variant_name()),
            ),
    {
        let opts = DisplayOpts::with_prefix("animate");
        display_variant(&opts, self.variant_name(), None)
    }
}

} // verus!
