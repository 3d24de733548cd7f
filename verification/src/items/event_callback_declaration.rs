//! Event callback declarations: `@Event [priority] { body }` inside a type.
//!
//! Looking up the event type and compiling the priority and the body are left
//! to the caller, which hands over what the decisions read.
use vstd::prelude::*;

verus! {

/// Why an event callback is not declared at all.
#[derive(Clone, Copy, Debug, PartialEq, Eq, Structural)]
pub enum EventCallbackRejection {
    /// "expected identifier": the callback names no event.
    ExpectedIdentifier,
    /// "undefined type": no type has the event's name.
    UndefinedType,
    /// "type does not inherit from `Event`".
    NotAnEvent,
}

/// Where a callback's priority comes from.
#[derive(Clone, Copy, Debug, PartialEq, Eq, Structural)]
pub enum PriorityPlan {
    /// The compiled priority expression.
    Expression,
    /// The priority expression did not compile: an empty priority.
    Empty,
    /// No priority is written: the qualifier's default one.
    Default,
}

/// What is done with a callback's body.
#[derive(Clone, Copy, Debug, PartialEq, Eq, Structural)]
pub enum BodyPlan {
    /// Error: "expected function body".
    Missing,
    /// The body did not compile; the callback has no body.
    NotCompiled,
    /// The body is compiled; `checks_target` when it first returns unless the
    /// event's target field is the object itself.
    Compiled { checks_target: bool },
}

/// An error about the event's target field.
#[derive(Clone, Copy, Debug, PartialEq, Eq, Structural)]
pub enum TargetFieldError {
    /// "type has no field".
    NoField,
    /// "field is not an object".
    NotAnObject,
}

/// What a declared callback is made of.
#[derive(Clone, Copy, Debug, PartialEq, Eq, Structural)]
pub struct DeclaredCallback {
    pub priority: PriorityPlan,
    /// Error: the priority is not an integer.
    pub priority_not_int: bool,
    pub body: BodyPlan,
    pub target_field_error: Option<TargetFieldError>,
}

/// What an event callback declaration gives.
#[derive(Clone, Copy, Debug, PartialEq, Eq, Structural)]
pub enum EventCallbackPlan {
    Rejected(EventCallbackRejection),
    Declared(DeclaredCallback),
}

/// The state of a callback's body.
#[derive(Clone, Copy, Debug, PartialEq, Eq, Structural)]
pub enum BodyState {
    Missing,
    NotCompiled,
    Compiled,
}

/// What an event callback declaration gives. `priority` is nothing when no
/// priority is written, else whether it compiled to an integer (nothing inside
/// where it did not compile); `event_field` is nothing when the qualifier
/// reads no target field of the event, else whether the event has that field
/// and whether it is an object.
pub open spec fn spec_event_callback_plan(
    has_name: bool,
    type_found: bool,
    inherits_event: bool,
    priority: Option<Option<bool>>,
    body: BodyState,
    event_field: Option<Option<bool>>,
) -> EventCallbackPlan {
    if !has_name {
        EventCallbackPlan::Rejected(EventCallbackRejection::ExpectedIdentifier)
    } else if !type_found {
        EventCallbackPlan::Rejected(EventCallbackRejection::UndefinedType)
    } else if !inherits_event {
        EventCallbackPlan::Rejected(EventCallbackRejection::NotAnEvent)
    } else {
        let (priority_plan, priority_not_int) = match priority {
            Some(Some(is_int)) => (PriorityPlan::Expression, !is_int),
            Some(None) => (PriorityPlan::Empty, false),
            None => (PriorityPlan::Default, false),
        };
        let (body_plan, target_field_error) = match body {
            BodyState::Missing => (BodyPlan::Missing, None),
            BodyState::NotCompiled => (BodyPlan::NotCompiled, None),
            BodyState::Compiled => match event_field {
                Some(Some(true)) => (BodyPlan::Compiled { checks_target: true }, None),
                Some(Some(false)) => (BodyPlan::Compiled { checks_target: false }, Some(TargetFieldError::NotAnObject)),
                Some(None) => (BodyPlan::Compiled { checks_target: false }, Some(TargetFieldError::NoField)),
                None => (BodyPlan::Compiled { checks_target: false }, None),
            },
        };
        EventCallbackPlan::Declared(DeclaredCallback {
            priority: priority_plan,
            priority_not_int,
            body: body_plan,
            target_field_error,
        })
    }
}

/// What an event callback declaration gives (see `spec_event_callback_plan`).
pub fn event_callback_plan(
    has_name: bool,
    type_found: bool,
    inherits_event: bool,
    priority: Option<Option<bool>>,
    body: BodyState,
    event_field: Option<Option<bool>>,
) -> (result: EventCallbackPlan)
    ensures
        result == spec_event_callback_plan(has_name, type_found, inherits_event, priority, body, event_field),
{
    if !has_name {
        return EventCallbackPlan::Rejected(EventCallbackRejection::ExpectedIdentifier);
    }
    if !type_found {
        return EventCallbackPlan::Rejected(EventCallbackRejection::UndefinedType);
    }
    if !inherits_event {
        return EventCallbackPlan::Rejected(EventCallbackRejection::NotAnEvent);
    }
    let (priority_plan, priority_not_int) = match priority {
        Some(Some(is_int)) => (PriorityPlan::Expression, !is_int),
        Some(None) => (PriorityPlan::Empty, false),
        None => (PriorityPlan::Default, false),
    };
    let (body_plan, target_field_error) = match body {
        BodyState::Missing => (BodyPlan::Missing, None),
        BodyState::NotCompiled => (BodyPlan::NotCompiled, None),
        BodyState::Compiled => match event_field {
            Some(Some(true)) => (BodyPlan::Compiled { checks_target: true }, None),
            Some(Some(false)) => (BodyPlan::Compiled { checks_target: false }, Some(TargetFieldError::NotAnObject)),
            Some(None) => (BodyPlan::Compiled { checks_target: false }, Some(TargetFieldError::NoField)),
            None => (BodyPlan::Compiled { checks_target: false }, None),
        },
    };
    EventCallbackPlan::Declared(DeclaredCallback {
        priority: priority_plan,
        priority_not_int,
        body: body_plan,
        target_field_error,
    })
}

/// A callback checks the event's target exactly when its body compiled and
/// the event's target field is an object; it is rejected exactly when it does
/// not name an existing event type.
pub proof fn law_target_check(
    has_name: bool,
    type_found: bool,
    inherits_event: bool,
    priority: Option<Option<bool>>,
    body: BodyState,
    event_field: Option<Option<bool>>,
)
    ensures
        ({
            let plan = spec_event_callback_plan(has_name, type_found, inherits_event, priority, body, event_field);
            &&& (plan matches EventCallbackPlan::Declared(d) && d.body == (BodyPlan::Compiled { checks_target: true }))
                <==> (has_name && type_found && inherits_event && body == BodyState::Compiled && event_field == Some(Some(true)))
            &&& plan is Rejected <==> !(has_name && type_found && inherits_event)
        }),
{
}

/// A callback is rejected for the first of these that fails: it names an
/// event, a type of that name exists, the type inherits from `Event`. A
/// declared callback takes its priority from the written expression, from
/// nothing when that did not compile, or from the default when none is
/// written, and reports a priority that is not an integer; what becomes of
/// the priority does not depend on the body, nor the body on the priority. A
/// missing body is reported as such; a compiled body reports a target field
/// that the event lacks or that is not an object.
pub proof fn law_event_callback_outcomes(
    has_name: bool,
    type_found: bool,
    inherits_event: bool,
    priority: Option<Option<bool>>,
    body: BodyState,
    event_field: Option<Option<bool>>,
    other_priority: Option<Option<bool>>,
    other_body: BodyState,
)
    ensures
        ({
            let plan = spec_event_callback_plan(has_name, type_found, inherits_event, priority, body, event_field);
            &&& !has_name ==> plan == EventCallbackPlan::Rejected(EventCallbackRejection::ExpectedIdentifier)
            &&& has_name && !type_found ==> plan == EventCallbackPlan::Rejected(EventCallbackRejection::UndefinedType)
            &&& has_name && type_found && !inherits_event
                ==> plan == EventCallbackPlan::Rejected(EventCallbackRejection::NotAnEvent)
            &&& plan matches EventCallbackPlan::Declared(d) ==> {
                &&& d.priority_not_int <==> priority == Some(Some(false))
                &&& (d.priority == PriorityPlan::Default) <==> priority is None
                &&& (d.priority == PriorityPlan::Empty) <==> priority == Some(None::<bool>)
                &&& (d.body == BodyPlan::Missing) <==> body == BodyState::Missing
                &&& (d.body == BodyPlan::NotCompiled) <==> body == BodyState::NotCompiled
                &&& (d.target_field_error == Some(TargetFieldError::NoField))
                    <==> body == BodyState::Compiled && event_field == Some(None::<bool>)
                &&& (d.target_field_error == Some(TargetFieldError::NotAnObject))
                    <==> body == BodyState::Compiled && event_field == Some(Some(false))
            }
            &&& (plan, spec_event_callback_plan(has_name, type_found, inherits_event, other_priority, body, event_field))
                matches (EventCallbackPlan::Declared(d), EventCallbackPlan::Declared(e)) ==> d.body == e.body
                    && d.target_field_error == e.target_field_error
            &&& (plan, spec_event_callback_plan(has_name, type_found, inherits_event, priority, other_body, event_field))
                matches (EventCallbackPlan::Declared(d), EventCallbackPlan::Declared(e)) ==> d.priority == e.priority
                    && d.priority_not_int == e.priority_not_int
        }),
{
}

} // verus!
