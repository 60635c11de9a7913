# rmk

The decision logic of a split-keyboard firmware and of its host-protocol
client, written in Verus and proved against its contracts.

- `src/` is the verified library. Every module states what its functions
  return or change over mathematical models (`Seq`, `Map`, spec functions),
  and the laws that span several functions stand as public proof functions
  (`lemma_*`). Calls into outside crates (`cobs`, `postcard`, `trouble-host`)
  go through a few small trusted wrappers whose contracts are documented
  where they are declared.
- `tests/` exercises the library on concrete values.
- `app/` is the asynchronous glue: serial, flash and touchpad drivers, the
  lighting task, the storage read channel and the host protocol reader and writer.
  It moves bytes and awaits; every decision is a call into the library.

Main areas of the library:

| module | what it decides |
|---|---|
| `link`, `half_duplex`, `frame`, `counters` | sequenced, acknowledged, credit-limited split link over a polled half-duplex wire; COBS/CRC framing |
| `selector`, `split_ble`, `split_peripheral` | wired/BLE split transport selection, split central scanning and sleep, peripheral message handling |
| `ble`, `ble_host`, `ble_conn`, `bond_table`, `ad`, `ble_name` | BLE profiles, bonds, advertising payloads and phases, connection decisions |
| `report_channel`, `connection` | routing of HID reports and host replies to the active transport |
| `cirque` | Cirque Pinnacle trackpad initialization program and packet decoding |
| `wake_reports` | reports held while a bonded host reconnects, and flushed to it |
| `combo`, `lighting`, `lighting_state`, `maintenance` | combos, lighting processor state, lighting snapshots, maintenance mode |
| `shared_flash`, `storage` | shared flash service decisions, cooperative flash, serialized storage reads |
| `rynk`, `rynk_pages`, `rynk_service` | host protocol framing, request/response matching, paging, capability report |

## Bounded collections

The firmware keeps its queues in `heapless` collections and `embassy`
channels. Here they are `Vec`/`VecDeque` fields whose bound is part of each
type's well-formedness (`LinkEndpoint`, `BoundedQueue`, `TopicQueue`,
`WakeReports`), so every operation states what happens when the bound is
reached. Declaring `heapless::Deque` to Verus was tried: its storage type is
a crate-private generic type behind an alias, and Verus refuses the
declaration ("expected generics to match"). Hiding the collection in an
opaque struct would need an uninterpreted name for its contents, and such a
name cannot range over the generic message types these queues hold.
