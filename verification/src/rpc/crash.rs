//! The crashes of a device.

use vstd::prelude::*;

use super::types::ProcessorType;

verus! {

/// What a device kept of its crashes.
#[derive(Debug)]
pub struct CrashDump {
    pub crash_reports: Vec<CrashReport>,
    pub dai_commit_hash: String,
    pub device_id: String,
}

/// What is known of a crash.
#[derive(Debug)]
pub struct CrashReport {
    pub processor: ProcessorType,
    pub error_source: String,
    pub crashed_thread_id: u32,
    pub error_source_info: ErrorSourceInfo,
    pub thread_callstack: Vec<ThreadCallstack>,
    pub prints: Vec<String>,
    pub uptime_ns: u64,
    pub timer_raw: u64,
    pub status_flags: u64,
}

/// What caused a crash.
#[derive(Debug)]
pub struct ErrorSourceInfo {
    pub assert_context: AssertContext,
    pub trap_context: TrapContext,
    pub error_id: u32,
}

/// The assertion that failed.
#[derive(Debug)]
pub struct AssertContext {
    pub file_name: String,
    pub function_name: String,
    pub line: u32,
}

/// The trap that was taken.
#[derive(Debug)]
pub struct TrapContext {
    pub trap_number: u32,
    pub trap_address: u32,
    pub trap_name: String,
}

/// A thread at the time of a crash.
#[derive(Debug)]
pub struct ThreadCallstack {
    pub thread_id: u32,
    pub thread_name: String,
    pub thread_status: String,
    pub stack_bottom: u32,
    pub stack_top: u32,
    pub stack_pointer: u32,
    pub instruction_pointer: u32,
    pub callstack: Vec<CallstackContext>,
}

/// A call of a thread.
#[derive(Debug)]
pub struct CallstackContext {
    pub callsite: u32,
    pub called_target: u32,
    pub frame_pointer: u32,
    pub context: String,
}

} // verus!
