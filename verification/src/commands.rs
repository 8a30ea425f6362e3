pub mod abort;
pub mod def;
pub mod endfn;
pub mod eq_cmd;
pub mod exec;
pub mod fn_call;
pub mod fn_def;
pub mod if_cmd;
pub mod input_cmd;
pub mod lib_call;
pub mod mov;
pub mod neq_cmd;
pub mod npm;
pub mod print;
pub mod registry;

pub use abort::AbortCommand;
pub use def::DefCommand;
pub use endfn::EndFnCommand;
pub use eq_cmd::EqCommand;
pub use exec::ExecCommand;
pub use fn_call::FnCallCommand;
pub use fn_def::FnDefCommand;
pub use if_cmd::EndIfCommand;
pub use if_cmd::IfCommand;
pub use input_cmd::InputCommand;
pub use lib_call::LibCallCommand;
pub use mov::MovCommand;
pub use neq_cmd::NeqCommand;
pub use npm::NpmCommand;
pub use print::PrintCommand;
