//! Runtime configuration of a container image.
use vstd::prelude::*;
use crate::text::{copy_texts, texts};

verus! {

/// Runtime configuration of an image, as the OCI image format describes it.
pub struct OciImageConfig {
    /// Program and leading arguments.
    pub entrypoint: Option<Vec<String>>,
    /// Arguments, or program and arguments where there is no entrypoint.
    pub cmd: Option<Vec<String>>,
    /// Environment entries of the form `KEY=value`.
    pub env: Option<Vec<String>>,
    /// Directory that the command starts in.
    pub working_dir: Option<String>,
    /// Ports that the image exposes.
    pub exposed_ports: Option<Vec<String>>,
    /// User that the command runs as.
    pub user: Option<String>,
}

/// What an `OciImageConfig` holds.
#[verifier::ext_equal]
pub struct ConfigView {
    pub entrypoint: Option<Seq<Seq<char>>>,
    pub cmd: Option<Seq<Seq<char>>>,
    pub env: Option<Seq<Seq<char>>>,
    pub working_dir: Option<Seq<char>>,
    pub exposed_ports: Option<Seq<Seq<char>>>,
    pub user: Option<Seq<char>>,
}

/// The view of an optional list of strings.
pub open spec fn list_view(list: Option<Vec<String>>) -> Option<Seq<Seq<char>>> {
    match list {
        Some(v) => Some(texts(v)),
        None => None,
    }
}

/// The view of an optional string.
pub open spec fn text_view(text: Option<String>) -> Option<Seq<char>> {
    match text {
        Some(s) => Some(s@),
        None => None,
    }
}

impl View for OciImageConfig {
    type V = ConfigView;

    open spec fn view(&self) -> ConfigView {
        ConfigView {
            entrypoint: list_view(self.entrypoint),
            cmd: list_view(self.cmd),
            env: list_view(self.env),
            working_dir: text_view(self.working_dir),
            exposed_ports: list_view(self.exposed_ports),
            user: text_view(self.user),
        }
    }
}

impl ConfigView {
    /// A configuration that says nothing.
    pub open spec fn blank() -> ConfigView {
        ConfigView {
            entrypoint: None,
            cmd: None,
            env: None,
            working_dir: None,
            exposed_ports: None,
            user: None,
        }
    }

    /// The command line that the configuration asks for: the entrypoint, followed by `cmd`.
    pub open spec fn command(self) -> Seq<Seq<char>> {
        let program = match self.entrypoint {
            Some(v) => v,
            None => Seq::empty(),
        };
        let args = match self.cmd {
            Some(v) => v,
            None => Seq::empty(),
        };
        program + args
    }
}

/// A copy of an optional list of strings.
pub fn copy_list(list: &Option<Vec<String>>) -> (r: Option<Vec<String>>)
    ensures
        list_view(r) == list_view(*list),
{
    match list {
        Some(v) => Some(copy_texts(v)),
        None => None,
    }
}

/// A copy of an optional string.
pub fn copy_text(text: &Option<String>) -> (r: Option<String>)
    ensures
        r == *text,
{
    match text {
        Some(s) => Some(s.clone()),
        None => None,
    }
}

impl OciImageConfig {
    /// The command line that the configuration asks for.
    pub fn full_command(&self) -> (r: Vec<String>)
        ensures
            texts(r) == self@.command(),
    {
        let mut r: Vec<String> = Vec::new();
        assert(texts(r) =~= Seq::<Seq<char>>::empty());
        if let Some(program) = &self.entrypoint {
            r = copy_texts(program);
        }
        let ghost program = texts(r);
        if let Some(args) = &self.cmd {
            let mut i: usize = 0;
            assert(texts(*args).take(0) =~= Seq::<Seq<char>>::empty());
            assert(program + texts(*args).take(0) =~= program);
            while i < args.len()
                invariant
                    i <= args@.len(),
                    texts(r) == program + texts(*args).take(i as int),
                decreases args@.len() - i,
            {
                let ghost before = texts(r);
                r.push(args[i].clone());
                assert(texts(r) =~= before.push(args@[i as int]@));
                i = i + 1;
                assert(texts(r) =~= program + texts(*args).take(i as int));
            }
            assert(texts(*args).take(i as int) =~= texts(*args));
        }
        assert(texts(r) =~= self@.command());
        r
    }

    /// A copy of the configuration.
    pub fn duplicate(&self) -> (r: OciImageConfig)
        ensures
            r@ == self@,
    {
        OciImageConfig {
            entrypoint: copy_list(&self.entrypoint),
            cmd: copy_list(&self.cmd),
            env: copy_list(&self.env),
            working_dir: copy_text(&self.working_dir),
            exposed_ports: copy_list(&self.exposed_ports),
            user: copy_text(&self.user),
        }
    }
}

impl Default for OciImageConfig {
    fn default() -> (r: OciImageConfig)
        ensures
            r@ == ConfigView::blank(),
    {
        OciImageConfig {
            entrypoint: None,
            cmd: None,
            env: None,
            working_dir: None,
            exposed_ports: None,
            user: None,
        }
    }
}

} // verus!
