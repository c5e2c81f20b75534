//! What happened while a recap was generated: which models ran, and how.

use vstd::prelude::*;

verus! {

/// The trace of one generation by a primary model with backups.
#[derive(Debug, PartialEq, Eq)]
pub struct GenerationModelExecutionTrace {
    pub primary_model: String,
    pub primary_used_model: String,
    pub primary_failed: bool,
    pub primary_failure_reason: String,
    pub backup_model: String,
    pub backup_used: bool,
    pub backup_used_model: String,
    pub backup_succeeded: bool,
    pub backup_failure_reason: String,
}

/// The model of a [`GenerationModelExecutionTrace`].
#[verifier::ext_equal]
pub struct GenerationTrace {
    pub primary_model: Seq<char>,
    pub primary_used_model: Seq<char>,
    pub primary_failed: bool,
    pub primary_failure_reason: Seq<char>,
    pub backup_model: Seq<char>,
    pub backup_used: bool,
    pub backup_used_model: Seq<char>,
    pub backup_succeeded: bool,
    pub backup_failure_reason: Seq<char>,
}

impl View for GenerationModelExecutionTrace {
    type V = GenerationTrace;

    open spec fn view(&self) -> GenerationTrace {
        GenerationTrace {
            primary_model: self.primary_model@,
            primary_used_model: self.primary_used_model@,
            primary_failed: self.primary_failed,
            primary_failure_reason: self.primary_failure_reason@,
            backup_model: self.backup_model@,
            backup_used: self.backup_used,
            backup_used_model: self.backup_used_model@,
            backup_succeeded: self.backup_succeeded,
            backup_failure_reason: self.backup_failure_reason@,
        }
    }
}

/// A trace on which nothing is recorded yet.
pub open spec fn blank_generation() -> GenerationTrace {
    GenerationTrace {
        primary_model: Seq::empty(),
        primary_used_model: Seq::empty(),
        primary_failed: false,
        primary_failure_reason: Seq::empty(),
        backup_model: Seq::empty(),
        backup_used: false,
        backup_used_model: Seq::empty(),
        backup_succeeded: false,
        backup_failure_reason: Seq::empty(),
    }
}

impl Default for GenerationModelExecutionTrace {
    fn default() -> (r: Self)
        ensures
            r@ == blank_generation(),
    {
        let r = GenerationModelExecutionTrace {
            primary_model: String::new(),
            primary_used_model: String::new(),
            primary_failed: false,
            primary_failure_reason: String::new(),
            backup_model: String::new(),
            backup_used: false,
            backup_used_model: String::new(),
            backup_succeeded: false,
            backup_failure_reason: String::new(),
        };
        assert(r@ =~= blank_generation());
        r
    }
}

impl Clone for GenerationModelExecutionTrace {
    fn clone(&self) -> (r: Self)
        ensures
            r@ == self@,
    {
        let r = GenerationModelExecutionTrace {
            primary_model: self.primary_model.clone(),
            primary_used_model: self.primary_used_model.clone(),
            primary_failed: self.primary_failed,
            primary_failure_reason: self.primary_failure_reason.clone(),
            backup_model: self.backup_model.clone(),
            backup_used: self.backup_used,
            backup_used_model: self.backup_used_model.clone(),
            backup_succeeded: self.backup_succeeded,
            backup_failure_reason: self.backup_failure_reason.clone(),
        };
        assert(r@ =~= self@);
        r
    }
}

/// The trace of a detailed recap.
#[derive(Debug, PartialEq, Eq)]
pub struct RecapExecutionTrace {
    pub generation: GenerationModelExecutionTrace,
}

impl View for RecapExecutionTrace {
    type V = GenerationTrace;

    open spec fn view(&self) -> GenerationTrace {
        self.generation@
    }
}

impl Default for RecapExecutionTrace {
    fn default() -> (r: Self)
        ensures
            r@ == blank_generation(),
    {
        RecapExecutionTrace { generation: GenerationModelExecutionTrace::default() }
    }
}

impl Clone for RecapExecutionTrace {
    fn clone(&self) -> (r: Self)
        ensures
            r@ == self@,
    {
        RecapExecutionTrace { generation: self.generation.clone() }
    }
}

/// The trace of the optional check model.
#[derive(Debug, PartialEq, Eq)]
pub struct ConditionalModelExecutionTrace {
    pub generation: GenerationModelExecutionTrace,
    pub attempted: bool,
    pub succeeded: bool,
    pub failure_reason: String,
}

/// The model of a [`ConditionalModelExecutionTrace`].
#[verifier::ext_equal]
pub struct ConditionalTrace {
    pub generation: GenerationTrace,
    pub attempted: bool,
    pub succeeded: bool,
    pub failure_reason: Seq<char>,
}

impl View for ConditionalModelExecutionTrace {
    type V = ConditionalTrace;

    open spec fn view(&self) -> ConditionalTrace {
        ConditionalTrace {
            generation: self.generation@,
            attempted: self.attempted,
            succeeded: self.succeeded,
            failure_reason: self.failure_reason@,
        }
    }
}

pub open spec fn blank_conditional() -> ConditionalTrace {
    ConditionalTrace {
        generation: blank_generation(),
        attempted: false,
        succeeded: false,
        failure_reason: Seq::empty(),
    }
}

impl Default for ConditionalModelExecutionTrace {
    fn default() -> (r: Self)
        ensures
            r@ == blank_conditional(),
    {
        let r = ConditionalModelExecutionTrace {
            generation: GenerationModelExecutionTrace::default(),
            attempted: false,
            succeeded: false,
            failure_reason: String::new(),
        };
        assert(r@ =~= blank_conditional());
        r
    }
}

impl Clone for ConditionalModelExecutionTrace {
    fn clone(&self) -> (r: Self)
        ensures
            r@ == self@,
    {
        ConditionalModelExecutionTrace {
            generation: self.generation.clone(),
            attempted: self.attempted,
            succeeded: self.succeeded,
            failure_reason: self.failure_reason.clone(),
        }
    }
}

/// The trace of a condensed recap and of its optional repair.
#[derive(Debug, PartialEq, Eq)]
pub struct CondensedExecutionTrace {
    pub generation: GenerationModelExecutionTrace,
    pub check: ConditionalModelExecutionTrace,
}

/// The model of a [`CondensedExecutionTrace`].
#[verifier::ext_equal]
pub struct CondensedTrace {
    pub generation: GenerationTrace,
    pub check: ConditionalTrace,
}

impl View for CondensedExecutionTrace {
    type V = CondensedTrace;

    open spec fn view(&self) -> CondensedTrace {
        CondensedTrace { generation: self.generation@, check: self.check@ }
    }
}

pub open spec fn blank_condensed() -> CondensedTrace {
    CondensedTrace { generation: blank_generation(), check: blank_conditional() }
}

impl Default for CondensedExecutionTrace {
    fn default() -> (r: Self)
        ensures
            r@ == blank_condensed(),
    {
        CondensedExecutionTrace {
            generation: GenerationModelExecutionTrace::default(),
            check: ConditionalModelExecutionTrace::default(),
        }
    }
}

impl Clone for CondensedExecutionTrace {
    fn clone(&self) -> (r: Self)
        ensures
            r@ == self@,
    {
        CondensedExecutionTrace {
            generation: self.generation.clone(),
            check: self.check.clone(),
        }
    }
}

} // verus!
