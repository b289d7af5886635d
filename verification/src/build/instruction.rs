//! Instructions of a build, and what they say about the image.
use vstd::prelude::*;
use crate::image::{ConfigView, OciImageConfig};
use crate::text::{concat3, copy_texts, texts};

verus! {

/// An instruction of a build.
pub enum Instruction {
    /// Start from an image.
    From { image: String },
    /// Run a command inside a VM.
    Run { command: String },
    /// Copy a file of the build context into the image.
    Copy { src: String, dst: String },
    /// Set the arguments of the image.
    Cmd { args: Vec<String> },
    /// Set the program of the image.
    Entrypoint { args: Vec<String> },
    /// Add an environment entry.
    Env { key: String, value: String },
    /// Set the working directory.
    Workdir { path: String },
    /// Ask for a measured boot.
    VmMeasuredBoot,
}

/// A parsed instruction file.
pub struct Vyomafile {
    pub instructions: Vec<Instruction>,
}

/// Whether an instruction needs work outside: it starts from an image or changes its files.
pub open spec fn is_outside(instruction: Instruction) -> bool {
    instruction is From || instruction is Run || instruction is Copy
}

/// The configuration that a build begins with: an empty environment and nothing else.
pub open spec fn initial_config() -> ConfigView {
    ConfigView { env: Some(Seq::empty()), ..ConfigView::blank() }
}

/// An environment entry.
pub open spec fn env_entry(key: Seq<char>, value: Seq<char>) -> Seq<char> {
    key + "="@ + value
}

/// The configuration after one instruction.
pub open spec fn configured(config: ConfigView, instruction: Instruction) -> ConfigView {
    match instruction {
        Instruction::Cmd { args } => ConfigView { cmd: Some(texts(args)), ..config },
        Instruction::Entrypoint { args } => ConfigView { entrypoint: Some(texts(args)), ..config },
        Instruction::Env { key, value } => ConfigView {
            env: Some(
                match config.env {
                    Some(entries) => entries.push(env_entry(key@, value@)),
                    None => seq![env_entry(key@, value@)],
                },
            ),
            ..config
        },
        Instruction::Workdir { path } => ConfigView { working_dir: Some(path@), ..config },
        _ => config,
    }
}

/// The configuration after all of `instructions`.
pub open spec fn config_of(instructions: Seq<Instruction>) -> ConfigView
    decreases instructions.len(),
{
    if instructions.len() == 0 {
        initial_config()
    } else {
        configured(config_of(instructions.drop_last()), instructions.last())
    }
}

/// The position of the first instruction at or after `from` that needs work outside.
pub open spec fn next_outside(instructions: Seq<Instruction>, from: int) -> int
    decreases instructions.len() - from,
{
    if from < 0 || from >= instructions.len() {
        instructions.len() as int
    } else if is_outside(instructions[from]) {
        from
    } else {
        next_outside(instructions, from + 1)
    }
}

/// The instructions without the requests for a measured boot, in order.
pub open spec fn without_requests(instructions: Seq<Instruction>) -> Seq<Instruction>
    decreases instructions.len(),
{
    if instructions.len() == 0 {
        Seq::empty()
    } else {
        let rest = without_requests(instructions.drop_first());
        if instructions[0] is VmMeasuredBoot {
            rest
        } else {
            seq![instructions[0]] + rest
        }
    }
}

impl OciImageConfig {
    /// The configuration that a build begins with.
    pub fn for_build() -> (r: OciImageConfig)
        ensures
            r@ == initial_config(),
    {
        let env: Vec<String> = Vec::new();
        assert(texts(env) =~= Seq::<Seq<char>>::empty());
        OciImageConfig {
            entrypoint: None,
            cmd: None,
            env: Some(env),
            working_dir: None,
            exposed_ports: None,
            user: None,
        }
    }

    /// Takes over what an instruction says about the image.
    pub fn apply(&mut self, instruction: &Instruction)
        ensures
            final(self)@ == configured(old(self)@, *instruction),
    {
        let ghost before = self@;
        match instruction {
            Instruction::Cmd { args } => {
                self.cmd = Some(copy_texts(args));
            },
            Instruction::Entrypoint { args } => {
                self.entrypoint = Some(copy_texts(args));
            },
            Instruction::Env { key, value } => {
                let entry = concat3(key.as_str(), "=", value.as_str());
                let mut entries: Vec<String> = match &self.env {
                    Some(entries) => copy_texts(entries),
                    None => Vec::new(),
                };
                let ghost old_entries = texts(entries);
                entries.push(entry);
                assert(texts(entries) =~= old_entries.push(entry@));
                self.env = Some(entries);
                assert(self@.env->0 =~= configured(before, *instruction).env->0);
            },
            Instruction::Workdir { path } => {
                self.working_dir = Some(path.clone());
            },
            _ => {},
        }
        assert(self@ =~= configured(before, *instruction));
    }
}

/// The last instruction of its kind decides: the arguments, the program and the working directory
/// are those of the last `CMD`, `ENTRYPOINT` and `WORKDIR`, whatever stands before and between.
pub proof fn last_of_its_kind_decides(instructions: Seq<Instruction>, i: int)
    requires
        0 <= i < instructions.len(),
    ensures
        match instructions[i] {
            Instruction::Cmd { args } => (forall|j: int|
                i < j < instructions.len() ==> !(#[trigger] instructions[j] is Cmd)) ==> config_of(
                instructions,
            ).cmd == Some(texts(args)),
            Instruction::Entrypoint { args } => (forall|j: int|
                i < j < instructions.len() ==> !(#[trigger] instructions[j] is Entrypoint))
                ==> config_of(instructions).entrypoint == Some(texts(args)),
            Instruction::Workdir { path } => (forall|j: int|
                i < j < instructions.len() ==> !(#[trigger] instructions[j] is Workdir))
                ==> config_of(instructions).working_dir == Some(path@),
            _ => true,
        },
    decreases instructions.len(),
{
    if i < instructions.len() - 1 {
        let init = instructions.drop_last();
        last_of_its_kind_decides(init, i);
        assert(init[i] == instructions[i]);
        let last = instructions.last();
        assert(last == instructions[instructions.len() - 1]);
        assert forall|j: int| i < j < init.len() implies #[trigger] init[j] == instructions[j] by {}
    }
}

/// The environment entries that `instructions` add, in order.
pub open spec fn env_entries(instructions: Seq<Instruction>) -> Seq<Seq<char>>
    decreases instructions.len(),
{
    if instructions.len() == 0 {
        Seq::empty()
    } else {
        let before = env_entries(instructions.drop_last());
        match instructions.last() {
            Instruction::Env { key, value } => before.push(env_entry(key@, value@)),
            _ => before,
        }
    }
}

/// Every `ENV` instruction adds its entry, in the order of the file, and nothing else does.
pub proof fn environment_collects_all_entries(instructions: Seq<Instruction>)
    ensures
        config_of(instructions).env == Some(env_entries(instructions)),
    decreases instructions.len(),
{
    if instructions.len() > 0 {
        environment_collects_all_entries(instructions.drop_last());
    }
}

/// Instructions that need work outside, and the request for a measured boot, leave the
/// configuration as it is.
pub proof fn outside_work_leaves_config(config: ConfigView, instruction: Instruction)
    requires
        is_outside(instruction) || instruction is VmMeasuredBoot,
    ensures
        configured(config, instruction) == config,
{
}

/// A build sets neither the exposed ports nor the user.
pub proof fn ports_and_user_stay_unset(instructions: Seq<Instruction>)
    ensures
        config_of(instructions).exposed_ports is None,
        config_of(instructions).user is None,
    decreases instructions.len(),
{
    if instructions.len() > 0 {
        ports_and_user_stay_unset(instructions.drop_last());
    }
}

} // verus!
