//! The glue type of a job and the block strategy that governs admission of
//! a trigger while its handler is busy, with their wire names.
use vstd::prelude::*;
use crate::text::str_eq;

verus! {

/// How the job's code is supplied.
#[derive(Clone, Copy, Debug, PartialEq, Eq, Structural)]
pub enum GlueType {
    Bean,
    GlueGroovy,
    GlueShell,
    GluePython,
    GluePhp,
    GlueNodejs,
    GluePowerShell,
}

/// The wire name of each glue type.
pub open spec fn glue_name(g: GlueType) -> Seq<char> {
    match g {
        GlueType::Bean => "BEAN"@,
        GlueType::GlueGroovy => "GLUE_GROOVY"@,
        GlueType::GlueShell => "GLUE_SHELL"@,
        GlueType::GluePython => "GLUE_PYTHON"@,
        GlueType::GluePhp => "GLUE_PHP"@,
        GlueType::GlueNodejs => "GLUE_NODEJS"@,
        GlueType::GluePowerShell => "GLUE_POWERSHELL"@,
    }
}

/// The glue type whose wire name is `s`, if any.
pub open spec fn glue_of_name(s: Seq<char>) -> Option<GlueType> {
    if s == "BEAN"@ {
        Some(GlueType::Bean)
    } else if s == "GLUE_GROOVY"@ {
        Some(GlueType::GlueGroovy)
    } else if s == "GLUE_SHELL"@ {
        Some(GlueType::GlueShell)
    } else if s == "GLUE_PYTHON"@ {
        Some(GlueType::GluePython)
    } else if s == "GLUE_PHP"@ {
        Some(GlueType::GluePhp)
    } else if s == "GLUE_NODEJS"@ {
        Some(GlueType::GlueNodejs)
    } else if s == "GLUE_POWERSHELL"@ {
        Some(GlueType::GluePowerShell)
    } else {
        None
    }
}

/// Script glue types run through an interpreter; bean and groovy do not.
pub open spec fn glue_is_script(g: GlueType) -> bool {
    !(g == GlueType::Bean || g == GlueType::GlueGroovy)
}

/// The interpreter command of a script glue type, empty for the others.
pub open spec fn glue_cmd(g: GlueType) -> Seq<char> {
    match g {
        GlueType::Bean | GlueType::GlueGroovy => ""@,
        GlueType::GlueShell => "bash"@,
        GlueType::GluePython => "python"@,
        GlueType::GluePhp => "php"@,
        GlueType::GlueNodejs => "node"@,
        GlueType::GluePowerShell => "powershell"@,
    }
}

/// The script file suffix of a glue type, empty for non-scripts.
pub open spec fn glue_suffix(g: GlueType) -> Seq<char> {
    match g {
        GlueType::Bean | GlueType::GlueGroovy => ""@,
        GlueType::GlueShell => ".sh"@,
        GlueType::GluePython => ".py"@,
        GlueType::GluePhp => ".php"@,
        GlueType::GlueNodejs => ".js"@,
        GlueType::GluePowerShell => ".ps1"@,
    }
}

impl GlueType {
    /// Parses a wire name; unknown names give `None`.
    pub fn from_str(glue_type: &str) -> (r: Option<GlueType>)
        ensures
            r == glue_of_name(glue_type@),
    {
        if str_eq(glue_type, "BEAN") {
            Some(GlueType::Bean)
        } else if str_eq(glue_type, "GLUE_GROOVY") {
            Some(GlueType::GlueGroovy)
        } else if str_eq(glue_type, "GLUE_SHELL") {
            Some(GlueType::GlueShell)
        } else if str_eq(glue_type, "GLUE_PYTHON") {
            Some(GlueType::GluePython)
        } else if str_eq(glue_type, "GLUE_PHP") {
            Some(GlueType::GluePhp)
        } else if str_eq(glue_type, "GLUE_NODEJS") {
            Some(GlueType::GlueNodejs)
        } else if str_eq(glue_type, "GLUE_POWERSHELL") {
            Some(GlueType::GluePowerShell)
        } else {
            None
        }
    }

    pub fn to_str(&self) -> (r: &'static str)
        ensures
            r@ == glue_name(*self),
    {
        match self {
            GlueType::Bean => "BEAN",
            GlueType::GlueGroovy => "GLUE_GROOVY",
            GlueType::GlueShell => "GLUE_SHELL",
            GlueType::GluePython => "GLUE_PYTHON",
            GlueType::GluePhp => "GLUE_PHP",
            GlueType::GlueNodejs => "GLUE_NODEJS",
            GlueType::GluePowerShell => "GLUE_POWERSHELL",
        }
    }

    pub fn is_script(&self) -> (r: bool)
        ensures
            r == glue_is_script(*self),
    {
        match self {
            GlueType::Bean | GlueType::GlueGroovy => false,
            _ => true,
        }
    }

    pub fn get_cmd(&self) -> (r: &'static str)
        ensures
            r@ == glue_cmd(*self),
    {
        match self {
            GlueType::Bean | GlueType::GlueGroovy => "",
            GlueType::GlueShell => "bash",
            GlueType::GluePython => "python",
            GlueType::GluePhp => "php",
            GlueType::GlueNodejs => "node",
            GlueType::GluePowerShell => "powershell",
        }
    }

    pub fn get_suffix(&self) -> (r: &'static str)
        ensures
            r@ == glue_suffix(*self),
    {
        match self {
            GlueType::Bean | GlueType::GlueGroovy => "",
            GlueType::GlueShell => ".sh",
            GlueType::GluePython => ".py",
            GlueType::GluePhp => ".php",
            GlueType::GlueNodejs => ".js",
            GlueType::GluePowerShell => ".ps1",
        }
    }
}

/// Admission policy for a trigger that arrives while its handler runs.
#[derive(Clone, Copy, Debug, PartialEq, Eq, Structural)]
pub enum ExecutorBlockStrategy {
    SerialExecution,
    DiscardLater,
    CoverEarly,
    Other,
}

/// The wire name of each block strategy.
pub open spec fn strategy_name(b: ExecutorBlockStrategy) -> Seq<char> {
    match b {
        ExecutorBlockStrategy::SerialExecution => "SERIAL_EXECUTION"@,
        ExecutorBlockStrategy::DiscardLater => "DISCARD_LATER"@,
        ExecutorBlockStrategy::CoverEarly => "COVER_EARLY"@,
        ExecutorBlockStrategy::Other => "OTHER"@,
    }
}

/// The block strategy named `s`; every unknown name means `Other`.
pub open spec fn strategy_of_name(s: Seq<char>) -> ExecutorBlockStrategy {
    if s == "SERIAL_EXECUTION"@ {
        ExecutorBlockStrategy::SerialExecution
    } else if s == "DISCARD_LATER"@ {
        ExecutorBlockStrategy::DiscardLater
    } else if s == "COVER_EARLY"@ {
        ExecutorBlockStrategy::CoverEarly
    } else {
        ExecutorBlockStrategy::Other
    }
}

impl ExecutorBlockStrategy {
    pub fn from_str(s: &str) -> (r: ExecutorBlockStrategy)
        ensures
            r == strategy_of_name(s@),
    {
        if str_eq(s, "SERIAL_EXECUTION") {
            ExecutorBlockStrategy::SerialExecution
        } else if str_eq(s, "DISCARD_LATER") {
            ExecutorBlockStrategy::DiscardLater
        } else if str_eq(s, "COVER_EARLY") {
            ExecutorBlockStrategy::CoverEarly
        } else {
            ExecutorBlockStrategy::Other
        }
    }

    pub fn to_str(&self) -> (r: &'static str)
        ensures
            r@ == strategy_name(*self),
    {
        match self {
            ExecutorBlockStrategy::SerialExecution => "SERIAL_EXECUTION",
            ExecutorBlockStrategy::DiscardLater => "DISCARD_LATER",
            ExecutorBlockStrategy::CoverEarly => "COVER_EARLY",
            ExecutorBlockStrategy::Other => "OTHER",
        }
    }
}

} // verus!
