//! What is started with the bot.

use vstd::prelude::*;

verus! {

/// What the log says where there are recurring messages.
pub const RUNNING_WITH_SCHEDULES: &'static str =
    "Bot running with continuous connection. Handlers: Config watcher, 1337 tracker, Generic commands, Scheduled messages, Latency monitor, Flight tracker";

/// What the log says where there are none.
pub const RUNNING_WITHOUT_SCHEDULES: &'static str =
    "Bot running with continuous connection. Handlers: 1337 tracker, Generic commands, Latency monitor, Flight tracker";

/// What the bot is started with.
#[derive(Clone, Copy, Debug, PartialEq, Eq, Structural)]
pub struct Equipment {
    /// There is a language model.
    pub llm: bool,
    /// The configuration has access to one.
    pub ai_configured: bool,
    /// The settings have emotes.
    pub emotes_configured: bool,
    /// Recurring messages in the configuration.
    pub schedules: usize,
}

/// What is started.
#[derive(Clone, Copy, Debug, PartialEq, Eq, Structural)]
pub struct StartupPlan {
    pub memory: bool,
    pub emotes: bool,
    pub ritual: bool,
    pub scheduled_messages: bool,
}

impl Equipment {
    /// What is started: the memory where the configuration has access to a
    /// model, the emotes and the ritual where there is one besides.
    pub open spec fn plan(self) -> StartupPlan {
        StartupPlan {
            memory: self.ai_configured,
            emotes: self.llm && self.ai_configured && self.emotes_configured,
            ritual: self.llm && self.ai_configured,
            scheduled_messages: self.schedules > 0,
        }
    }
}

/// What is started.
pub fn plan_startup(e: Equipment) -> (r: StartupPlan)
    ensures
        r == e.plan(),
{
    StartupPlan {
        memory: e.ai_configured,
        emotes: e.llm && e.ai_configured && e.emotes_configured,
        ritual: e.llm && e.ai_configured,
        scheduled_messages: e.schedules > 0,
    }
}

/// What the log says.
pub fn running_message(plan: StartupPlan) -> (r: &'static str)
    ensures
        r@ == if plan.scheduled_messages {
            RUNNING_WITH_SCHEDULES@
        } else {
            RUNNING_WITHOUT_SCHEDULES@
        },
{
    if plan.scheduled_messages {
        RUNNING_WITH_SCHEDULES
    } else {
        RUNNING_WITHOUT_SCHEDULES
    }
}

/// The ritual never runs without a memory to revise.
pub proof fn law_rituals_have_a_memory(e: Equipment)
    ensures
        e.plan().ritual ==> e.plan().memory,
        e.plan().emotes ==> e.plan().ritual,
{
}

/// Each part is started exactly where what it needs is there.
pub proof fn law_parts_are_started(e: Equipment)
    ensures
        e.plan().memory <==> e.ai_configured,
        e.plan().ritual <==> e.ai_configured && e.llm,
        e.plan().emotes <==> e.ai_configured && e.llm && e.emotes_configured,
        e.plan().scheduled_messages <==> e.schedules != 0,
{
}

} // verus!
