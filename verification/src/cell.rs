//! The write-once holder of the configuration and of the help lines derived
//! from it: set once at start-up, read for the rest of the run.

use crate::config::{help_lines, Config};
use vstd::prelude::*;

verus! {

/// A configuration with its help lines, or nothing yet. Once a
/// configuration is in, neither it nor the help lines change again.
#[derive(Debug)]
pub struct ConfigCell {
    config: Option<Config>,
    help: Vec<String>,
}

impl ConfigCell {
    /// The configuration that the cell holds, if it was initialised.
    pub closed spec fn value(&self) -> Option<Config> {
        self.config
    }

    /// The help lines that the cell holds.
    pub closed spec fn lines(&self) -> Seq<Seq<char>> {
        Seq::new(self.help@.len(), |i: int| self.help@[i]@)
    }

    /// The help lines are those of the configuration; an empty cell has
    /// none.
    pub closed spec fn wf(&self) -> bool {
        match self.config {
            Some(config) => self.lines() == help_lines(config),
            None => self.lines() == Seq::<Seq<char>>::empty(),
        }
    }

    /// An empty cell.
    pub fn new() -> (r: ConfigCell)
        ensures
            r.wf(),
            r.value() is None,
            r.lines().len() == 0,
    {
        let r = ConfigCell { config: None, help: Vec::new() };
        assert(r.lines() =~= Seq::<Seq<char>>::empty());
        r
    }

    /// Puts the configuration in and derives its help lines, if the cell is
    /// empty. A cell that was initialised before refuses and stays as it
    /// is. Returns whether the configuration was taken.
    pub fn initialize(&mut self, config: Config) -> (accepted: bool)
        requires
            old(self).wf(),
        ensures
            final(self).wf(),
            accepted == (old(self).value() is None),
            accepted ==> final(self).value() == Some(config) && final(self).lines() == help_lines(
                config,
            ),
            !accepted ==> final(self).value() == old(self).value() && final(self).lines() == old(
                self,
            ).lines(),
    {
        if self.config.is_some() {
            return false;
        }
        let help = config.create_help_message();
        self.config = Some(config);
        self.help = help;
        assert(self.lines() =~= help_lines(config));
        true
    }

    /// The configuration, once the cell was initialised.
    pub fn config(&self) -> (r: Option<Config>)
        ensures
            r == self.value(),
    {
        self.config
    }

    /// How many help lines the cell holds.
    pub fn help_len(&self) -> (r: usize)
        ensures
            r == self.lines().len(),
    {
        self.help.len()
    }

    /// The help line at `index`; `None` behind the last.
    pub fn help_line(&self, index: usize) -> (r: Option<&String>)
        ensures
            r is Some <==> index < self.lines().len(),
            r matches Some(line) ==> line@ == self.lines()[index as int],
    {
        if index < self.help.len() {
            Some(&self.help[index])
        } else {
            None
        }
    }
}

/// A cell that holds a configuration holds exactly its help lines, and an
/// empty cell holds none.
pub proof fn lemma_cell_lines(cell: ConfigCell)
    requires
        cell.wf(),
    ensures
        cell.value() matches Some(config) ==> cell.lines() == help_lines(config),
        cell.value() is None ==> cell.lines().len() == 0,
{
}

} // verus!
