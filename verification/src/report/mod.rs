//! Execution reports produced by CAS flows.

mod execution_report;
mod report_builder;

pub use execution_report::CasExecutionOutcome;
pub use execution_report::CasExecutionReport;
pub use execution_report::CasExecutionReportView;
pub use report_builder::recorded;
pub use report_builder::saturating_increment;
pub use report_builder::CasReportBuilder;
pub use report_builder::CasReportBuilderView;
