# remit

Remit sends files between devices of a local network with no central server:
devices find each other over mDNS and transfer files over FTP.

This crate is the verified core of the application, written in Verus:

- `src/discovery.rs`: how a device announces itself (the mDNS service
  description and its full name), what it reports of the mDNS events it
  receives (never itself; the first IPv4 address of a peer), and the shared
  mDNS state that a second start is refused by and that exit shuts down.
- `src/profile.rs`: the user-name rules over the SQLite tables: where the
  database lies, where the name comes from, which statement stores a new one,
  the rows of known devices; and models of the user-name table (a stored name
  is read back, a second change overrides the first) and of the schema
  (initialising twice is initialising once).
- `src/transfer.rs`: the sending side: server address, upload name, and the
  upload as a step machine (the order of its steps, which error ends it, the
  bytes sent), with the messages of its errors.
- `src/reception.rs`: the receiving side: server addresses and settings, and
  which received files are moved to the public documents folder.
- `src/text.rs`: decimal rendering of numbers and socket addresses.
- `src/system.rs`, `src/platform.rs`: readings of the machine, and the platform.

`app/` holds the input and output around it: the database, the mDNS daemon,
the FTP client and server, and the file watcher.
