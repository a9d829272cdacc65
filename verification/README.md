# esp_openthread

The platform layer that runs the OpenThread stack on an IEEE 802.15.4 radio,
split in two:

- `src/` is a Verus library that holds every decision of the layer, each with
  a contract that Verus proves:
  - `error`: OpenThread status codes (`OtError`, `check_status`);
  - `flags`: the state-change notification flags (`ChangedFlags`);
  - `role`: the device role (`ThreadDeviceRole`);
  - `frame`: decoding of received radio frames (`classify_received`,
    `frame_get_type`, `rssi_to_lqi`);
  - `radio`: the radio configuration that the platform callbacks read and
    write (`RadioSettings`), the reported signal strength;
  - `settings`: the stored network settings (`SettingsStore`);
  - `dataset`: the operational dataset and its raw form
    (`OperationalDataset::to_raw`, `prepare_active_dataset`);
  - `link`: the link mode word;
  - `addr`: interface addresses;
  - `udp`: the receive buffer of a UDP socket and the steps of a send.
- `app/` is ordinary Rust around it: the OpenThread instance, the C platform
  callbacks exported to the stack, UDP sockets, the radio driver, the alarm
  and the entropy source.
