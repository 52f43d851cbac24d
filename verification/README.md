# flowers

Plant monitoring and watering: sensor nodes measure soil moisture, light,
temperature, pressure and the water tank, and water their plants on order;
a server stores what they report and sends them their settings over MQTT.

- `src/` is the verified library (Verus): the MQTT topic convention and
  topic-filter matching, the server's routing and boot handling, the packet
  and settings model, packet priorities, the BMP280 and BH1750 arithmetic,
  the node's network decisions (status LED, reconnection, MQTT connection
  cycle, incoming packets) and the server's database rows.
- `tests/` exercises the library on concrete values.
- `app/` is the server program (database, MQTT client, HTTP API), the wire
  encoding of packets, and the node's sensor and network tasks (its MQTT
  session on a minimq client) written against the embassy, embedded-hal and
  embedded-nal traits.
