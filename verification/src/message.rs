use vstd::prelude::*;

use crate::device::DeviceInfo;

verus! {

/// The tagged envelope of the real-time channel, one variant per message
/// kind: the discovery query and its roster answer, the transfer lifecycle
/// notices, and an error notice. Timestamps are milliseconds since the Unix
/// epoch; the transport layer renders them as ISO-8601 UTC on the wire.
pub enum FileTransferMessage {
    DeviceDiscovery { timestamp: i64 },
    DeviceList { devices: Vec<DeviceInfo>, timestamp: i64 },
    FileTransferInit {
        transfer_id: String,
        filename: String,
        file_size: u64,
        sender_id: String,
        receiver_id: String,
    },
    FileChunk {
        transfer_id: String,
        chunk_index: usize,
        total_chunks: usize,
        data: String,
        receiver_id: String,
    },
    FileTransferComplete { transfer_id: String, receiver_id: String },
    TransferRequest { file_id: String, filename: String, size: u64, timestamp: i64 },
    TransferAccept { file_id: String, timestamp: i64 },
    TransferReject { file_id: String, timestamp: i64 },
    TransferProgress { file_id: String, bytes_transferred: u64, total_bytes: u64, timestamp: i64 },
    Error { message: String, timestamp: i64 },
}

} // verus!
