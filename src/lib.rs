//! A second-stage boot loader's core: ELF image parsing, segment loading with
//! relocation bookkeeping, higher-half page-table construction and the
//! hand-off sequence, each stated over a mathematical model.
use vstd::prelude::*;

pub mod elf;
pub mod loader;
pub mod paging;
pub mod handoff;
