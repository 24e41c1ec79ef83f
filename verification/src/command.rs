//! A builder for a command description: each piece is supplied through a
//! chainable setter, and `build` hands the assembled value out exactly when
//! every required piece was supplied.

use vstd::prelude::*;

verus! {

/// A command to run: the executable, its arguments, its environment, and
/// an optional working directory.
#[derive(Debug)]
pub struct Command {
    pub executable: String,
    pub args: Vec<String>,
    pub env: Vec<String>,
    pub current_dir: Option<String>,
}

/// The builder: every piece starts unset; `executable`, `args` and `env`
/// are required, `current_dir` is optional.
pub struct CommandBuilder {
    pub executable: Option<String>,
    pub args: Option<Vec<String>>,
    pub env: Option<Vec<String>>,
    pub current_dir: Option<Option<String>>,
}

/// The required piece whose absence stopped `build`.
#[derive(Clone, Copy, Debug, PartialEq, Eq, Structural)]
pub enum BuildError {
    MissingExecutable,
    MissingArgs,
    MissingEnv,
}

impl BuildError {
    /// The human-readable description of the missing piece.
    pub fn message(&self) -> (r: &'static str)
        ensures
            match self {
                BuildError::MissingExecutable => r@ == "executable not set"@,
                BuildError::MissingArgs => r@ == "args not set"@,
                BuildError::MissingEnv => r@ == "env not set"@,
            },
    {
        match self {
            BuildError::MissingExecutable => "executable not set",
            BuildError::MissingArgs => "args not set",
            BuildError::MissingEnv => "env not set",
        }
    }
}

impl Command {
    /// A fresh builder with every piece unset.
    pub fn builder() -> (r: CommandBuilder)
        ensures
            r.executable is None,
            r.args is None,
            r.env is None,
            r.current_dir is None,
    {
        CommandBuilder { executable: None, args: None, env: None, current_dir: None }
    }
}

impl CommandBuilder {
    /// Supply the executable.
    pub fn executable(&mut self, executable: String) -> (r: &mut Self)
        ensures
            r.executable == Some(executable),
            r.args == old(self).args,
            r.env == old(self).env,
            r.current_dir == old(self).current_dir,
            *final(self) == *final(r),
    {
        self.executable = Some(executable);
        self
    }

    /// Supply the arguments.
    pub fn args(&mut self, args: Vec<String>) -> (r: &mut Self)
        ensures
            r.executable == old(self).executable,
            r.args == Some(args),
            r.env == old(self).env,
            r.current_dir == old(self).current_dir,
            *final(self) == *final(r),
    {
        self.args = Some(args);
        self
    }

    /// Supply the environment.
    pub fn env(&mut self, env: Vec<String>) -> (r: &mut Self)
        ensures
            r.executable == old(self).executable,
            r.args == old(self).args,
            r.env == Some(env),
            r.current_dir == old(self).current_dir,
            *final(self) == *final(r),
    {
        self.env = Some(env);
        self
    }

    /// Supply the optional working directory.
    pub fn current_dir(&mut self, current_dir: String) -> (r: &mut Self)
        ensures
            r.executable == old(self).executable,
            r.args == old(self).args,
            r.env == old(self).env,
            r.current_dir == Some(Some(current_dir)),
            *final(self) == *final(r),
    {
        self.current_dir = Some(Some(current_dir));
        self
    }

    /// Assemble the command, taking each supplied piece out of the builder
    /// in order; the first required piece found missing is the error, and
    /// the pieces after it are left in place.
    pub fn build(&mut self) -> (r: Result<Command, BuildError>)
        ensures
            final(self).executable is None,
            final(self).args == (if old(self).executable is Some {
                None::<Vec<String>>
            } else {
                old(self).args
            }),
            final(self).env == (if old(self).executable is Some && old(self).args is Some {
                None::<Vec<String>>
            } else {
                old(self).env
            }),
            final(self).current_dir == (if old(self).executable is Some && old(self).args is Some
                && old(self).env is Some {
                None::<Option<String>>
            } else {
                old(self).current_dir
            }),
            match r {
                Ok(c) => {
                    &&& Some(c.executable) == old(self).executable
                    &&& Some(c.args) == old(self).args
                    &&& Some(c.env) == old(self).env
                    &&& c.current_dir == (match old(self).current_dir {
                        Some(d) => d,
                        None => None::<String>,
                    })
                },
                Err(e) => e == (if old(self).executable is None {
                    BuildError::MissingExecutable
                } else if old(self).args is None {
                    BuildError::MissingArgs
                } else {
                    BuildError::MissingEnv
                }) && (old(self).executable is None || old(self).args is None || old(self).env
                    is None),
            },
    {
        let executable: String = match self.executable.take() {
            Some(e) => e,
            None => {
                return Err(BuildError::MissingExecutable);
            },
        };
        let args: Vec<String> = match self.args.take() {
            Some(a) => a,
            None => {
                return Err(BuildError::MissingArgs);
            },
        };
        let env: Vec<String> = match self.env.take() {
            Some(e) => e,
            None => {
                return Err(BuildError::MissingEnv);
            },
        };
        let current_dir: Option<String> = match self.current_dir.take() {
            Some(d) => d,
            None => None,
        };
        Ok(Command { executable, args, env, current_dir })
    }
}

} // verus!
