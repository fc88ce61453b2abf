//! The keys under which the attributes stand in an event log. They are what a reader
//! of the log goes by: each is matched byte for byte.

use vstd::prelude::*;

verus! {

pub const CONNECTION_ID_ATTRIBUTE_KEY: &'static str = "connection_id";

pub const CHANNEL_ID_ATTRIBUTE_KEY: &'static str = "channel_id";

pub const PORT_ID_ATTRIBUTE_KEY: &'static str = "port_id";

pub const COUNTERPARTY_CHANNEL_ID_ATTRIBUTE_KEY: &'static str = "counterparty_channel_id";

pub const COUNTERPARTY_PORT_ID_ATTRIBUTE_KEY: &'static str = "counterparty_port_id";

pub const VERSION_ATTRIBUTE_KEY: &'static str = "version";

pub const PKT_SEQ_ATTRIBUTE_KEY: &'static str = "packet_sequence";

pub const PKT_DATA_ATTRIBUTE_KEY: &'static str = "packet_data";

pub const PKT_DATA_HEX_ATTRIBUTE_KEY: &'static str = "packet_data_hex";

pub const PKT_SRC_PORT_ATTRIBUTE_KEY: &'static str = "packet_src_port";

pub const PKT_SRC_CHANNEL_ATTRIBUTE_KEY: &'static str = "packet_src_channel";

pub const PKT_DST_PORT_ATTRIBUTE_KEY: &'static str = "packet_dst_port";

pub const PKT_DST_CHANNEL_ATTRIBUTE_KEY: &'static str = "packet_dst_channel";

pub const PKT_CHANNEL_ORDERING_ATTRIBUTE_KEY: &'static str = "packet_channel_ordering";

pub const PKT_TIMEOUT_HEIGHT_ATTRIBUTE_KEY: &'static str = "packet_timeout_height";

pub const PKT_TIMEOUT_TIMESTAMP_ATTRIBUTE_KEY: &'static str = "packet_timeout_timestamp";

pub const PKT_ACK_ATTRIBUTE_KEY: &'static str = "packet_ack";

pub const PKT_ACK_HEX_ATTRIBUTE_KEY: &'static str = "packet_ack_hex";

pub const PKT_CONNECTION_ID_ATTRIBUTE_KEY: &'static str = "packet_connection";

/// All the keys, in the order in which they stand above.
pub open spec fn attribute_keys() -> Seq<Seq<char>> {
    seq![
        CONNECTION_ID_ATTRIBUTE_KEY@,
        CHANNEL_ID_ATTRIBUTE_KEY@,
        PORT_ID_ATTRIBUTE_KEY@,
        COUNTERPARTY_CHANNEL_ID_ATTRIBUTE_KEY@,
        COUNTERPARTY_PORT_ID_ATTRIBUTE_KEY@,
        VERSION_ATTRIBUTE_KEY@,
        PKT_SEQ_ATTRIBUTE_KEY@,
        PKT_DATA_ATTRIBUTE_KEY@,
        PKT_DATA_HEX_ATTRIBUTE_KEY@,
        PKT_SRC_PORT_ATTRIBUTE_KEY@,
        PKT_SRC_CHANNEL_ATTRIBUTE_KEY@,
        PKT_DST_PORT_ATTRIBUTE_KEY@,
        PKT_DST_CHANNEL_ATTRIBUTE_KEY@,
        PKT_CHANNEL_ORDERING_ATTRIBUTE_KEY@,
        PKT_TIMEOUT_HEIGHT_ATTRIBUTE_KEY@,
        PKT_TIMEOUT_TIMESTAMP_ATTRIBUTE_KEY@,
        PKT_ACK_ATTRIBUTE_KEY@,
        PKT_ACK_HEX_ATTRIBUTE_KEY@,
        PKT_CONNECTION_ID_ATTRIBUTE_KEY@,
    ]
}

/// No two attributes stand under the same key.
pub proof fn law_keys_are_distinct()
    ensures
        attribute_keys().len() == 19,
        forall|i: int, j: int|
            0 <= i < j < 19 ==> #[trigger] attribute_keys()[i] != #[trigger] attribute_keys()[j],
{
    reveal_strlit("connection_id");
    reveal_strlit("channel_id");
    reveal_strlit("port_id");
    reveal_strlit("counterparty_channel_id");
    reveal_strlit("counterparty_port_id");
    reveal_strlit("version");
    reveal_strlit("packet_sequence");
    reveal_strlit("packet_data");
    reveal_strlit("packet_data_hex");
    reveal_strlit("packet_src_port");
    reveal_strlit("packet_src_channel");
    reveal_strlit("packet_dst_port");
    reveal_strlit("packet_dst_channel");
    reveal_strlit("packet_channel_ordering");
    reveal_strlit("packet_timeout_height");
    reveal_strlit("packet_timeout_timestamp");
    reveal_strlit("packet_ack");
    reveal_strlit("packet_ack_hex");
    reveal_strlit("packet_connection");
    let keys = attribute_keys();
    assert(keys[0].len() == 13 && keys[0][0] == 'c' && keys[0][8] == 'o');
    assert(keys[1].len() == 10 && keys[1][0] == 'c' && keys[1][8] == 'i');
    assert(keys[2].len() == 7 && keys[2][0] == 'p');
    assert(keys[3].len() == 23 && keys[3][0] == 'c' && keys[3][8] == 'a');
    assert(keys[4].len() == 20 && keys[4][0] == 'c' && keys[4][8] == 'a');
    assert(keys[5].len() == 7 && keys[5][0] == 'v');
    assert(keys[6].len() == 15 && keys[6][0] == 'p' && keys[6][8] == 'e');
    assert(keys[7].len() == 11 && keys[7][0] == 'p' && keys[7][8] == 'a');
    assert(keys[8].len() == 15 && keys[8][0] == 'p' && keys[8][8] == 'a');
    assert(keys[9].len() == 15 && keys[9][0] == 'p' && keys[9][8] == 'r');
    assert(keys[10].len() == 18 && keys[10][0] == 'p' && keys[10][8] == 'r');
    assert(keys[11].len() == 15 && keys[11][0] == 'p' && keys[11][8] == 's');
    assert(keys[12].len() == 18 && keys[12][0] == 'p' && keys[12][8] == 's');
    assert(keys[13].len() == 23 && keys[13][0] == 'p' && keys[13][8] == 'h');
    assert(keys[14].len() == 21 && keys[14][0] == 'p' && keys[14][8] == 'i');
    assert(keys[15].len() == 24 && keys[15][0] == 'p' && keys[15][8] == 'i');
    assert(keys[16].len() == 10 && keys[16][0] == 'p' && keys[16][8] == 'c');
    assert(keys[17].len() == 14 && keys[17][0] == 'p' && keys[17][8] == 'c');
    assert(keys[18].len() == 17 && keys[18][0] == 'p' && keys[18][8] == 'o');
}

} // verus!
