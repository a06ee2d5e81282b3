//! What an invocation is configured with: the two collections and the
//! topic, each named once at the start and handed on from there.

use crate::selector::Source;
use vstd::prelude::*;

verus! {

/// The names that the dispatcher's caller needs.
#[derive(Debug, PartialEq, Eq)]
pub struct Settings {
    /// The collection that holds the immediate backlog.
    pub table_name: String,
    /// The collection that holds the scheduled items.
    pub scheduled_table_name: String,
    /// The topic that fans messages out to the channels.
    pub topic: String,
}

/// A name that was not configured.
#[derive(Debug, PartialEq, Eq, Structural, Clone, Copy)]
pub enum MissingSetting {
    TableName,
    ScheduledTableName,
    Topic,
}

/// The line that reports a missing name.
pub open spec fn missing_text(missing: MissingSetting) -> Seq<char> {
    match missing {
        MissingSetting::TableName => "TABLE_NAME not set"@,
        MissingSetting::ScheduledTableName => "SCHEDULED_TABLE_NAME not set"@,
        MissingSetting::Topic => "No SNS_ARN provided."@,
    }
}

impl MissingSetting {
    /// The line that reports this missing name to the operator.
    pub fn message(self) -> (text: String)
        ensures
            text@ == missing_text(self),
    {
        match self {
            MissingSetting::TableName => "TABLE_NAME not set".to_owned(),
            MissingSetting::ScheduledTableName => "SCHEDULED_TABLE_NAME not set".to_owned(),
            MissingSetting::Topic => "No SNS_ARN provided.".to_owned(),
        }
    }
}

impl Settings {
    /// Puts the settings together from what was looked up.
    ///
    /// Succeeds exactly when all three names are there. Otherwise the error
    /// is the first that is missing: the backlog's collection, then the
    /// scheduled collection, then the topic.
    pub fn resolve(
        table_name: Option<String>,
        scheduled_table_name: Option<String>,
        topic: Option<String>,
    ) -> (resolved: Result<Settings, MissingSetting>)
        ensures
            match (table_name, scheduled_table_name, topic) {
                (None, _, _) => resolved == Err::<Settings, MissingSetting>(
                    MissingSetting::TableName,
                ),
                (Some(_), None, _) => resolved == Err::<Settings, MissingSetting>(
                    MissingSetting::ScheduledTableName,
                ),
                (Some(_), Some(_), None) => resolved == Err::<Settings, MissingSetting>(
                    MissingSetting::Topic,
                ),
                (Some(table), Some(scheduled), Some(topic)) => resolved == Ok::<
                    Settings,
                    MissingSetting,
                >(Settings { table_name: table, scheduled_table_name: scheduled, topic }),
            },
    {
        match table_name {
            None => Err(MissingSetting::TableName),
            Some(table_name) => match scheduled_table_name {
                None => Err(MissingSetting::ScheduledTableName),
                Some(scheduled_table_name) => match topic {
                    None => Err(MissingSetting::Topic),
                    Some(topic) => Ok(Settings { table_name, scheduled_table_name, topic }),
                },
            },
        }
    }

    /// The collection that stands behind a source.
    pub fn collection(&self, source: Source) -> (name: &String)
        ensures
            *name == (match source {
                Source::Scheduled => self.scheduled_table_name,
                Source::Immediate => self.table_name,
            }),
    {
        match source {
            Source::Scheduled => &self.scheduled_table_name,
            Source::Immediate => &self.table_name,
        }
    }
}

} // verus!
