//! Names and limits of the Secret Service protocol.

use vstd::prelude::*;

verus! {

/// Seconds after which a single call to the service is given up.
pub const DEFAULT_TIMEOUT_SECS: u64 = 2;

/// The bus name of the service.
pub const DBUS_DEST: &'static str = "org.freedesktop.secrets";

/// The path of the service object.
pub const DBUS_PATH: &'static str = "/org/freedesktop/secrets";

/// The property that holds the label of a collection.
pub const COLLECTION_LABEL: &'static str = "org.freedesktop.Secret.Collection.Label";

/// The property that holds the label of an item.
pub const ITEM_LABEL: &'static str = "org.freedesktop.Secret.Item.Label";

/// The property that holds the attributes of an item.
pub const ITEM_ATTRIBUTES: &'static str = "org.freedesktop.Secret.Item.Attributes";

/// The attribute of an item that holds the service of its entry.
pub const ATTRIBUTE_SERVICE: &'static str = "service";

/// The attribute of an item that holds the name of its entry.
pub const ATTRIBUTE_ACCOUNT: &'static str = "account";

/// The alias of the collection that is tried first.
pub const ALIAS_DEFAULT: &'static str = "default";

/// The alias of the collection that is tried second.
pub const ALIAS_SESSION: &'static str = "session";

/// The label of the collection that is created where there is none.
pub const DEFAULT_COLLECTION_LABEL: &'static str = "default";

/// The content type of every secret that is stored.
pub const CONTENT_TYPE: &'static str = "text/plain";

/// What stands between the service and the name in the label of an item.
pub const LABEL_SEPARATOR: &'static str = ":";

/// Seconds that one wait for the completion of a prompt lasts.
pub const PROMPT_TICK_SECS: u64 = 1;

/// Waits after which a prompt is given up: five minutes of them.
pub const PROMPT_TICKS: u32 = 300;

} // verus!
