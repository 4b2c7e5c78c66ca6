//! What Envoy reads at startup.

use vstd::prelude::*;

verus! {

/// The bootstrap: a listener for the probes and one for the metrics, and xDS
/// over the agent's socket for everything else.
pub const BOOTSTRAP: &'static str = r#"{
  "node": {
    "id": "host~127.0.0.1~no-id~localdomain",
    "cluster": "ingress-cluster"
  },
  "staticResources": {
    "listeners": [
      {
        "name": "envoy-prometheus-metrics-listener",
        "address": {
          "socketAddress": {
            "address": "0.0.0.0",
            "portValue": 9964
          }
        },
        "filterChains": [
          {
            "filters": [
              {
                "name": "envoy.filters.network.http_connection_manager",
                "typedConfig": {
                  "@type": "type.googleapis.com/envoy.extensions.filters.network.http_connection_manager.v3.HttpConnectionManager",
                  "statPrefix": "envoy-prometheus-metrics-listener",
                  "routeConfig": {
                    "virtualHosts": [
                      {
                        "name": "envoy-prometheus-metrics-route",
                        "domains": [
                          "*"
                        ],
                        "routes": [
                          {
                            "match": {
                              "prefix": "/metrics"
                            },
                            "route": {
                              "cluster": "/envoy-admin",
                              "prefixRewrite": "/stats/prometheus"
                            }
                          }
                        ]
                      }
                    ]
                  },
                  "internalAddressConfig": {
                    "cidrRanges": [
                      {
                        "addressPrefix": "10.0.0.0",
                        "prefixLen": 8
                      },
                      {
                        "addressPrefix": "172.16.0.0",
                        "prefixLen": 12
                      },
                      {
                        "addressPrefix": "192.168.0.0",
                        "prefixLen": 16
                      },
                      {
                        "addressPrefix": "127.0.0.1",
                        "prefixLen": 32
                      }
                    ]
                  },
                  "httpFilters": [
                    {
                      "name": "envoy.filters.http.router",
                      "typedConfig": {
                        "@type": "type.googleapis.com/envoy.extensions.filters.http.router.v3.Router"
                      }
                    }
                  ],
                  "streamIdleTimeout": "300s"
                }
              }
            ]
          }
        ]
      },
      {
        "name": "envoy-health-listener",
        "address": {
          "socketAddress": {
            "address": "127.0.0.1",
            "portValue": 9878
          }
        },
        "filterChains": [
          {
            "filters": [
              {
                "name": "envoy.filters.network.http_connection_manager",
                "typedConfig": {
                  "@type": "type.googleapis.com/envoy.extensions.filters.network.http_connection_manager.v3.HttpConnectionManager",
                  "statPrefix": "envoy-health-listener",
                  "routeConfig": {
                    "virtualHosts": [
                      {
                        "name": "envoy-health-route",
                        "domains": [
                          "*"
                        ],
                        "routes": [
                          {
                            "match": {
                              "prefix": "/healthz"
                            },
                            "route": {
                              "cluster": "/envoy-admin",
                              "prefixRewrite": "/ready"
                            }
                          }
                        ]
                      }
                    ]
                  },
                  "internalAddressConfig": {
                    "cidrRanges": [
                      {
                        "addressPrefix": "10.0.0.0",
                        "prefixLen": 8
                      },
                      {
                        "addressPrefix": "172.16.0.0",
                        "prefixLen": 12
                      },
                      {
                        "addressPrefix": "192.168.0.0",
                        "prefixLen": 16
                      },
                      {
                        "addressPrefix": "127.0.0.1",
                        "prefixLen": 32
                      }
                    ]
                  },
                  "httpFilters": [
                    {
                      "name": "envoy.filters.http.router",
                      "typedConfig": {
                        "@type": "type.googleapis.com/envoy.extensions.filters.http.router.v3.Router"
                      }
                    }
                  ],
                  "streamIdleTimeout": "300s"
                }
              }
            ]
          }
        ]
      }
    ],
    "clusters": [
      {
        "name": "ingress-cluster",
        "type": "ORIGINAL_DST",
        "connectTimeout": "2s",
        "lbPolicy": "CLUSTER_PROVIDED",
        "typedExtensionProtocolOptions": {
          "envoy.extensions.upstreams.http.v3.HttpProtocolOptions": {
            "@type": "type.googleapis.com/envoy.extensions.upstreams.http.v3.HttpProtocolOptions",
            "commonHttpProtocolOptions": {
              "idleTimeout": "60s",
              "maxConnectionDuration": "0s",
              "maxRequestsPerConnection": 0
            },
            "useDownstreamProtocolConfig": {}
          }
        },
        "cleanupInterval": "2.500s"
      },
      {
        "name": "egress-cluster-tls",
        "type": "ORIGINAL_DST",
        "connectTimeout": "2s",
        "lbPolicy": "CLUSTER_PROVIDED",
        "typedExtensionProtocolOptions": {
          "envoy.extensions.upstreams.http.v3.HttpProtocolOptions": {
            "@type": "type.googleapis.com/envoy.extensions.upstreams.http.v3.HttpProtocolOptions",
            "commonHttpProtocolOptions": {
              "idleTimeout": "60s",
              "maxConnectionDuration": "0s",
              "maxRequestsPerConnection": 0
            },
            "useDownstreamProtocolConfig": {}
          }
        },
        "cleanupInterval": "2.500s",
        "transportSocket": {
          "name": "cilium.tls_wrapper",
          "typedConfig": {
            "@type": "type.googleapis.com/cilium.UpstreamTlsWrapperContext"
          }
        }
      },
      {
        "name": "egress-cluster",
        "type": "ORIGINAL_DST",
        "connectTimeout": "2s",
        "lbPolicy": "CLUSTER_PROVIDED",
        "typedExtensionProtocolOptions": {
          "envoy.extensions.upstreams.http.v3.HttpProtocolOptions": {
            "@type": "type.googleapis.com/envoy.extensions.upstreams.http.v3.HttpProtocolOptions",
            "commonHttpProtocolOptions": {
              "idleTimeout": "60s",
              "maxConnectionDuration": "0s",
              "maxRequestsPerConnection": 0
            },
            "useDownstreamProtocolConfig": {}
          }
        },
        "cleanupInterval": "2.500s"
      },
      {
        "name": "ingress-cluster-tls",
        "type": "ORIGINAL_DST",
        "connectTimeout": "2s",
        "lbPolicy": "CLUSTER_PROVIDED",
        "typedExtensionProtocolOptions": {
          "envoy.extensions.upstreams.http.v3.HttpProtocolOptions": {
            "@type": "type.googleapis.com/envoy.extensions.upstreams.http.v3.HttpProtocolOptions",
            "commonHttpProtocolOptions": {
              "idleTimeout": "60s",
              "maxConnectionDuration": "0s",
              "maxRequestsPerConnection": 0
            },
            "useDownstreamProtocolConfig": {}
          }
        },
        "cleanupInterval": "2.500s",
        "transportSocket": {
          "name": "cilium.tls_wrapper",
          "typedConfig": {
            "@type": "type.googleapis.com/cilium.UpstreamTlsWrapperContext"
          }
        }
      },
      {
        "name": "xds-grpc-cilium",
        "type": "STATIC",
        "connectTimeout": "2s",
        "loadAssignment": {
          "clusterName": "xds-grpc-cilium",
          "endpoints": [
            {
              "lbEndpoints": [
                {
                  "endpoint": {
                    "address": {
                      "pipe": {
                        "path": "/var/run/cilium/envoy/sockets/xds.sock"
                      }
                    }
                  }
                }
              ]
            }
          ]
        },
        "typedExtensionProtocolOptions": {
          "envoy.extensions.upstreams.http.v3.HttpProtocolOptions": {
            "@type": "type.googleapis.com/envoy.extensions.upstreams.http.v3.HttpProtocolOptions",
            "explicitHttpConfig": {
              "http2ProtocolOptions": {}
            }
          }
        }
      },
      {
        "name": "/envoy-admin",
        "type": "STATIC",
        "connectTimeout": "2s",
        "loadAssignment": {
          "clusterName": "/envoy-admin",
          "endpoints": [
            {
              "lbEndpoints": [
                {
                  "endpoint": {
                    "address": {
                      "pipe": {
                        "path": "/var/run/cilium/envoy/sockets/admin.sock"
                      }
                    }
                  }
                }
              ]
            }
          ]
        }
      }
    ]
  },
  "dynamicResources": {
    "ldsConfig": {
      "initialFetchTimeout": "30s",
      "resourceApiVersion": "V3",
      "apiConfigSource": {
        "apiType": "GRPC",
        "transportApiVersion": "V3",
        "setNodeOnFirstMessageOnly": true,
        "grpcServices": [
          {
            "envoyGrpc": {
              "clusterName": "xds-grpc-cilium"
            }
          }
        ]
      }
    },
    "cdsConfig": {
      "initialFetchTimeout": "30s",
      "resourceApiVersion": "V3",
      "apiConfigSource": {
        "apiType": "GRPC",
        "transportApiVersion": "V3",
        "setNodeOnFirstMessageOnly": true,
        "grpcServices": [
          {
            "envoyGrpc": {
              "clusterName": "xds-grpc-cilium"
            }
          }
        ]
      }
    }
  },
  "bootstrapExtensions": [
    {
      "name": "envoy.bootstrap.internal_listener",
      "typedConfig": {
        "@type": "type.googleapis.com/envoy.extensions.bootstrap.internal_listener.v3.InternalListener"
      }
    }
  ],
  "overloadManager": {
    "resourceMonitors": [
      {
        "name": "envoy.resource_monitors.global_downstream_max_connections",
        "typedConfig": {
          "@type": "type.googleapis.com/envoy.extensions.resource_monitors.downstream_connections.v3.DownstreamConnectionsConfig",
          "max_active_downstream_connections": "50000"
        }
      }
    ]
  },
  "applicationLogConfig": {
    "logFormat": {
      "textFormat": "[%Y-%m-%d %T.%e][%t][%l][%n] [%g:%#] %v"
    }
  },
  "admin": {
    "address": {
      "pipe": {
        "path": "/var/run/cilium/envoy/sockets/admin.sock"
      }
    }
  }
}
"#;

} // verus!
