# red_quic

A QUIC port-forwarding tunnel. The library (`src/`, verified with Verus)
holds the wire format of the control protocol, the handshake decisions of
the server and the client, the decisions of a running control channel,
the registry of authenticated services and the configuration model.
The program (`app/`) runs the QUIC endpoints, sockets and timers with tokio
and s2n-quic and hands every decision to the library.
